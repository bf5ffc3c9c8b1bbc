//! Fee model, quote extraction and Dutch-book evaluation.

use crate::decimal::{decimal_ge, decimal_quotient, DecimalPct};
use crate::kalshi::types::{
    clone_quotes, levels_wf, opportunity_views, quote_views, ArbDirection, ArbOpportunity,
    ArbOpportunityView, BracketQuote, BracketQuoteView, Orderbook, OrderbookView, PriceLevel,
};
use vstd::prelude::*;
use vstd::seq_lib::{to_multiset_build, to_multiset_contains, to_multiset_len, to_multiset_remove};

verus! {

/// Taker fee rate, in hundredths: 7 means 0.07 of `P * (1 - P)` per contract.
pub const FEE_BPS: i64 = 7;

/// The taker fee in cents for `contracts` contracts at `price` cents:
/// zero outside the open interval (0, 100) and for no contracts, otherwise
/// `7 * C * P * (100 - P) / 10_000` rounded up to a whole cent.
pub open spec fn fee_cents(contracts: int, price: int) -> int {
    if price <= 0 || price >= 100 || contracts <= 0 {
        0
    } else {
        (7 * contracts * price * (100 - price) + 9_999) / 10_000
    }
}

/// `P * (100 - P)` lies between 99 and 2500 for a price strictly inside
/// (0, 100).
pub proof fn lemma_price_product_bounds(price: int)
    requires
        0 < price < 100,
    ensures
        99 <= price * (100 - price) <= 2500,
{
    assert(price * (100 - price) >= 99) by (nonlinear_arith)
        requires
            1 <= price <= 99,
    ;
    assert(price * (100 - price) <= 2500) by (nonlinear_arith)
        requires
            1 <= price <= 99,
    {
        assert((price - 50) * (price - 50) >= 0);
    }
}

/// Taker fee in cents for `contracts` contracts at `price_cents`.
pub fn taker_fee_cents(contracts: u32, price_cents: i64) -> (fee: i64)
    ensures
        fee == fee_cents(contracts as int, price_cents as int),
{
    if price_cents <= 0 || price_cents >= 100 {
        return 0;
    }
    proof {
        lemma_price_product_bounds(price_cents as int);
    }
    let unit: i64 = price_cents * (100 - price_cents);
    let count: i64 = contracts as i64;
    assert(0 <= 7 * count * unit <= 7 * 0xffff_ffff * 2500) by (nonlinear_arith)
        requires
            0 <= count <= 0xffff_ffff,
            99 <= unit <= 2500,
    ;
    let numerator: i64 = FEE_BPS * count * unit;
    assert(numerator == 7 * (contracts as int) * (price_cents as int) * (100 - price_cents as int))
        by (nonlinear_arith)
        requires
            numerator == 7 * count * unit,
            count == contracts as int,
            unit == price_cents * (100 - price_cents),
    ;
    (numerator + 9_999) / 10_000
}

/// The fee is zero for no contracts and at the prices 0 and 100.
pub proof fn fee_vanishes_at_edges(contracts: int, price: int)
    ensures
        fee_cents(0, price) == 0,
        fee_cents(contracts, 0) == 0,
        fee_cents(contracts, 100) == 0,
{
}

/// At a price strictly between 0 and 100, one contract or more costs at
/// least one cent.
pub proof fn fee_at_least_one_cent(contracts: int, price: int)
    requires
        contracts >= 1,
        0 < price < 100,
    ensures
        fee_cents(contracts, price) >= 1,
{
    assert(7 * contracts * price * (100 - price) >= 1) by (nonlinear_arith)
        requires
            contracts >= 1,
            price >= 1,
            100 - price >= 1,
    ;
}

/// At a fixed price the fee does not fall when the contract count rises.
pub proof fn fee_monotone_in_contracts(fewer: int, more: int, price: int)
    requires
        fewer <= more,
    ensures
        fee_cents(fewer, price) <= fee_cents(more, price),
{
    if 0 < price < 100 && fewer >= 1 {
        lemma_price_product_bounds(price);
        assert(7 * fewer * price * (100 - price) <= 7 * more * price * (100 - price))
            by (nonlinear_arith)
            requires
                1 <= fewer <= more,
                price >= 1,
                100 - price >= 1,
        ;
    } else if 0 < price < 100 && more >= 1 {
        fee_at_least_one_cent(more, price);
    }
}

/// At a fixed contract count the fee at `P` equals the fee at `100 - P`.
pub proof fn fee_symmetric_about_fifty(contracts: int, price: int)
    ensures
        fee_cents(contracts, price) == fee_cents(contracts, 100 - price),
{
    assert(7 * contracts * price * (100 - price) == 7 * contracts * (100 - price) * (100 - (100
        - price))) by (nonlinear_arith);
}

/// No leg costs more than two cents per contract.
pub proof fn lemma_fee_bounds(contracts: int, price: int)
    requires
        contracts >= 0,
    ensures
        0 <= fee_cents(contracts, price) <= 2 * contracts,
{
    if 0 < price < 100 && contracts >= 1 {
        lemma_price_product_bounds(price);
        let unit = price * (100 - price);
        assert(7 * contracts * price * (100 - price) == 7 * contracts * unit) by (nonlinear_arith)
            requires
                unit == price * (100 - price),
        ;
        assert(0 <= 7 * contracts * unit <= 17_500 * contracts) by (nonlinear_arith)
            requires
                contracts >= 1,
                99 <= unit <= 2500,
        ;
    }
}

// --- Quote extraction ---

/// The highest price among `levels`; 0 when there is none.
pub open spec fn best_price(levels: Seq<PriceLevel>) -> int
    decreases levels.len(),
{
    if levels.len() == 0 {
        0
    } else if levels.len() == 1 {
        levels[0].price as int
    } else {
        let rest = best_price(levels.drop_last());
        if levels.last().price > rest {
            levels.last().price as int
        } else {
            rest
        }
    }
}

/// The total quantity that `levels` offer at exactly `price`.
pub open spec fn depth_at(levels: Seq<PriceLevel>, price: int) -> int
    decreases levels.len(),
{
    if levels.len() == 0 {
        0
    } else {
        depth_at(levels.drop_last(), price) + if levels.last().price == price {
            levels.last().quantity as int
        } else {
            0
        }
    }
}

/// The total quantity at the best price of a side.
pub open spec fn best_depth(levels: Seq<PriceLevel>) -> int {
    depth_at(levels, best_price(levels))
}

/// A side whose levels are well formed and whose best-price quantity fits
/// in 64 bits.
pub open spec fn side_quotable(levels: Seq<PriceLevel>) -> bool {
    levels_wf(levels) && best_depth(levels) <= i64::MAX
}

/// A book from which a quote can be computed in 64-bit cents.
pub open spec fn quotable(book: OrderbookView) -> bool {
    side_quotable(book.yes) && side_quotable(book.no)
}

/// The quote that a book gives: none when nobody bids NO; otherwise the YES
/// ask is 100 minus the best NO bid, the YES bid is the best YES bid (0 when
/// there is none), and each depth is the total quantity at that best price.
pub open spec fn quote_of(ticker: Seq<char>, title: Seq<char>, book: OrderbookView) -> Option<
    BracketQuoteView,
> {
    if book.no.len() == 0 {
        None
    } else {
        Some(
            BracketQuoteView {
                ticker,
                title,
                yes_ask_cents: 100 - best_price(book.no),
                yes_bid_cents: best_price(book.yes),
                depth_at_no: best_depth(book.no),
                depth_at_yes: best_depth(book.yes),
            },
        )
    }
}

/// The view of an optional quote.
pub open spec fn quote_opt_view(q: Option<BracketQuote>) -> Option<BracketQuoteView> {
    match q {
        Some(quote) => Some(quote@),
        None => None,
    }
}

/// `best_price` is the maximum: some level has it and none exceeds it.
pub proof fn lemma_best_price_is_max(levels: Seq<PriceLevel>)
    requires
        levels.len() > 0,
    ensures
        exists|i: int| 0 <= i < levels.len() && levels[i].price == best_price(levels),
        forall|i: int| 0 <= i < levels.len() ==> levels[i].price <= best_price(levels),
    decreases levels.len(),
{
    if levels.len() == 1 {
        assert(levels[0].price == best_price(levels));
    } else {
        let front = levels.drop_last();
        lemma_best_price_is_max(front);
        let k = choose|i: int| 0 <= i < front.len() && front[i].price == best_price(front);
        assert(levels[k] == front[k]);
        if levels.last().price > best_price(front) {
            assert(levels[levels.len() - 1].price == best_price(levels));
        } else {
            assert(levels[k].price == best_price(levels));
        }
        assert forall|i: int| 0 <= i < levels.len() implies levels[i].price <= best_price(
            levels,
        ) by {
            if i < front.len() {
                assert(levels[i] == front[i]);
            }
        }
    }
}

/// Quantities that are not negative add up to a depth that is not negative
/// and that no prefix exceeds.
pub proof fn lemma_depth_prefix(levels: Seq<PriceLevel>, price: int, n: int)
    requires
        0 <= n <= levels.len(),
        forall|i: int| 0 <= i < levels.len() ==> (#[trigger] levels[i]).quantity >= 0,
    ensures
        0 <= depth_at(levels.take(n), price) <= depth_at(levels, price),
    decreases levels.len(),
{
    if levels.len() == 0 {
        assert(levels.take(n) =~= levels);
    } else if n == levels.len() {
        assert(levels.take(n) =~= levels);
        lemma_depth_prefix(levels.drop_last(), price, n - 1);
    } else {
        let front = levels.drop_last();
        lemma_depth_prefix(front, price, n);
        assert(front.take(n) =~= levels.take(n));
    }
}

/// Taking a level out lowers the depth at its price by its quantity and
/// leaves the other depths as they were.
pub proof fn lemma_depth_remove(levels: Seq<PriceLevel>, price: int, k: int)
    requires
        0 <= k < levels.len(),
    ensures
        depth_at(levels, price) == depth_at(levels.remove(k), price) + if levels[k].price
            == price {
            levels[k].quantity as int
        } else {
            0
        },
    decreases levels.len(),
{
    if k == levels.len() - 1 {
        assert(levels.remove(k) =~= levels.drop_last());
    } else {
        let front = levels.drop_last();
        lemma_depth_remove(front, price, k);
        assert(levels.remove(k).drop_last() =~= front.remove(k));
        assert(levels.remove(k).last() == levels.last());
    }
}

/// Two sides with the same levels, in whatever order, have the same depth at
/// every price.
pub proof fn lemma_depth_permutation(a: Seq<PriceLevel>, b: Seq<PriceLevel>, price: int)
    requires
        a.to_multiset() == b.to_multiset(),
    ensures
        depth_at(a, price) == depth_at(b, price),
    decreases a.len(),
{
    to_multiset_len(a);
    to_multiset_len(b);
    if a.len() > 0 {
        let x = a.last();
        let front = a.drop_last();
        assert(a =~= front.push(x));
        to_multiset_build(front, x);
        to_multiset_contains(b, x);
        assert(b.to_multiset().count(x) > 0);
        let k = choose|k: int| 0 <= k < b.len() && b[k] == x;
        to_multiset_remove(b, k);
        assert(front.to_multiset() =~= b.remove(k).to_multiset());
        lemma_depth_permutation(front, b.remove(k), price);
        lemma_depth_remove(b, price, k);
    }
}

/// Two sides with the same levels, in whatever order, have the same best
/// price.
pub proof fn lemma_best_price_permutation(a: Seq<PriceLevel>, b: Seq<PriceLevel>)
    requires
        a.to_multiset() == b.to_multiset(),
    ensures
        best_price(a) == best_price(b),
{
    to_multiset_len(a);
    to_multiset_len(b);
    if a.len() > 0 {
        lemma_best_price_is_max(a);
        lemma_best_price_is_max(b);
        let i = choose|i: int| 0 <= i < a.len() && a[i].price == best_price(a);
        let j = choose|j: int| 0 <= j < b.len() && b[j].price == best_price(b);
        to_multiset_contains(a, a[i]);
        to_multiset_contains(b, a[i]);
        to_multiset_contains(a, b[j]);
        to_multiset_contains(b, b[j]);
        assert(a.contains(a[i]));
        assert(b.contains(b[j]));
        assert(b.contains(a[i]));
        assert(a.contains(b[j]));
    }
}

/// Quote extraction does not depend on the order of the levels: two books
/// whose sides hold the same levels give the same quote.
pub proof fn quote_permutation_invariant(
    ticker: Seq<char>,
    title: Seq<char>,
    a: OrderbookView,
    b: OrderbookView,
)
    requires
        a.yes.to_multiset() == b.yes.to_multiset(),
        a.no.to_multiset() == b.no.to_multiset(),
    ensures
        quote_of(ticker, title, a) == quote_of(ticker, title, b),
{
    to_multiset_len(a.no);
    to_multiset_len(b.no);
    lemma_best_price_permutation(a.yes, b.yes);
    lemma_best_price_permutation(a.no, b.no);
    lemma_depth_permutation(a.yes, b.yes, best_price(a.yes));
    lemma_depth_permutation(a.no, b.no, best_price(a.no));
}

/// The highest price among `levels`, if there is any level.
pub fn best_level_price(levels: &Vec<PriceLevel>) -> (best: Option<i64>)
    ensures
        match best {
            Some(p) => levels.len() > 0 && p == best_price(levels@),
            None => levels.len() == 0,
        },
{
    if levels.len() == 0 {
        return None;
    }
    let mut best: i64 = levels[0].price;
    let mut i: usize = 1;
    assert(levels@.take(1) =~= seq![levels@[0]]);
    while i < levels.len()
        invariant
            1 <= i <= levels.len(),
            best == best_price(levels@.take(i as int)),
        decreases levels.len() - i,
    {
        assert(levels@.take(i + 1).drop_last() =~= levels@.take(i as int));
        if levels[i].price > best {
            best = levels[i].price;
        }
        i += 1;
    }
    assert(levels@.take(levels.len() as int) =~= levels@);
    Some(best)
}

/// The total quantity that `levels` offer at exactly `price`.
pub fn depth_at_price(levels: &Vec<PriceLevel>, price: i64) -> (depth: i64)
    requires
        forall|i: int| 0 <= i < levels.len() ==> (#[trigger] levels[i]).quantity >= 0,
        depth_at(levels@, price as int) <= i64::MAX,
    ensures
        depth == depth_at(levels@, price as int),
{
    let mut depth: i64 = 0;
    let mut i: usize = 0;
    while i < levels.len()
        invariant
            i <= levels.len(),
            depth == depth_at(levels@.take(i as int), price as int),
            forall|j: int| 0 <= j < levels.len() ==> (#[trigger] levels[j]).quantity >= 0,
            depth_at(levels@, price as int) <= i64::MAX,
        decreases levels.len() - i,
    {
        proof {
            assert(levels@.take(i + 1).drop_last() =~= levels@.take(i as int));
            lemma_depth_prefix(levels@, price as int, i + 1);
            lemma_depth_prefix(levels@, price as int, i as int);
        }
        if levels[i].price == price {
            depth = depth + levels[i].quantity;
        }
        i += 1;
    }
    assert(levels@.take(levels.len() as int) =~= levels@);
    depth
}

/// Whether a side is one from which a quote can be computed: every level is
/// well formed and the quantity at the best price fits in 64 bits.
pub fn side_is_quotable(levels: &Vec<PriceLevel>) -> (ok: bool)
    ensures
        ok == side_quotable(levels@),
{
    let mut i: usize = 0;
    while i < levels.len()
        invariant
            i <= levels.len(),
            forall|j: int| 0 <= j < i ==> (#[trigger] levels[j]).wf(),
        decreases levels.len() - i,
    {
        if !levels[i].is_valid() {
            return false;
        }
        i += 1;
    }
    let best = match best_level_price(levels) {
        Some(p) => p,
        None => { return true; },
    };
    let mut depth: i128 = 0;
    let mut k: usize = 0;
    while k < levels.len()
        invariant
            k <= levels.len(),
            levels_wf(levels@),
            depth == depth_at(levels@.take(k as int), best as int),
            0 <= depth <= k * 0x7fff_ffff_ffff_ffff,
        decreases levels.len() - k,
    {
        assert(levels@.take(k + 1).drop_last() =~= levels@.take(k as int));
        if levels[k].price == best {
            depth = depth + levels[k].quantity as i128;
        }
        k += 1;
    }
    assert(levels@.take(levels.len() as int) =~= levels@);
    depth <= i64::MAX as i128
}

/// Whether a quote can be computed from `book` in 64-bit cents.
pub fn is_quotable(book: &Orderbook) -> (ok: bool)
    ensures
        ok == quotable(book@),
{
    side_is_quotable(&book.yes) && side_is_quotable(&book.no)
}

/// The quote of one market from its order book. The YES ask is 100 minus the
/// best NO bid and the YES bid is the best YES bid; the best price of a side
/// is its maximum, wherever it stands, and a depth sums every level at that
/// price. There is no quote when nobody bids NO.
pub fn quote_from_orderbook(ticker: &str, title: &str, orderbook: &Orderbook) -> (quote: Option<
    BracketQuote,
>)
    requires
        quotable(orderbook@),
    ensures
        quote_opt_view(quote) == quote_of(ticker@, title@, orderbook@),
        quote is Some <==> orderbook.no.len() > 0,
{
    let best_no_price = match best_level_price(&orderbook.no) {
        Some(p) => p,
        None => { return None; },
    };
    let best_yes_price = best_level_price(&orderbook.yes);
    proof {
        lemma_best_price_is_max(orderbook.no@);
    }
    let yes_ask_cents: i64 = 100 - best_no_price;
    let depth_at_no = depth_at_price(&orderbook.no, best_no_price);
    let (yes_bid_cents, depth_at_yes) = match best_yes_price {
        Some(p) => (p, depth_at_price(&orderbook.yes, p)),
        None => (0i64, 0i64),
    };
    Some(
        BracketQuote {
            ticker: ticker.to_owned(),
            title: title.to_owned(),
            yes_ask_cents,
            yes_bid_cents,
            depth_at_no,
            depth_at_yes,
        },
    )
}

// --- Arbitrage evaluation ---

/// The price of one leg: the YES ask when buying, the YES bid when selling.
pub open spec fn leg_price(q: BracketQuoteView, direction: ArbDirection) -> int {
    match direction {
        ArbDirection::Long => q.yes_ask_cents,
        ArbDirection::Short => q.yes_bid_cents,
    }
}

/// The depth that one leg takes against: the NO side when buying YES, the
/// YES side when selling it.
pub open spec fn leg_depth(q: BracketQuoteView, direction: ArbDirection) -> int {
    match direction {
        ArbDirection::Long => q.depth_at_no,
        ArbDirection::Short => q.depth_at_yes,
    }
}

/// The sum of the leg prices.
pub open spec fn sum_prices(quotes: Seq<BracketQuoteView>, direction: ArbDirection) -> int
    decreases quotes.len(),
{
    if quotes.len() == 0 {
        0
    } else {
        sum_prices(quotes.drop_last(), direction) + leg_price(quotes.last(), direction)
    }
}

/// The sum of the fees of the legs, each rounded up on its own.
pub open spec fn sum_fees(quotes: Seq<BracketQuoteView>, direction: ArbDirection, size: int) -> int
    decreases quotes.len(),
{
    if quotes.len() == 0 {
        0
    } else {
        sum_fees(quotes.drop_last(), direction, size) + fee_cents(
            size,
            leg_price(quotes.last(), direction),
        )
    }
}

/// The smallest leg depth; 0 when there is no leg.
pub open spec fn min_depth(quotes: Seq<BracketQuoteView>, direction: ArbDirection) -> int
    decreases quotes.len(),
{
    if quotes.len() == 0 {
        0
    } else if quotes.len() == 1 {
        leg_depth(quotes[0], direction)
    } else {
        let rest = min_depth(quotes.drop_last(), direction);
        if leg_depth(quotes.last(), direction) < rest {
            leg_depth(quotes.last(), direction)
        } else {
            rest
        }
    }
}

/// Profit before fees: exactly one bracket pays 100 cents per contract.
pub open spec fn gross_profit(sum: int, direction: ArbDirection, size: int) -> int {
    match direction {
        ArbDirection::Long => (100 - sum) * size,
        ArbDirection::Short => (sum - 100) * size,
    }
}

/// The capital at stake: what the legs and their fees cost when buying, the
/// fixed liability of 100 cents per contract when selling.
pub open spec fn total_cost(sum: int, fees: int, direction: ArbDirection, size: int) -> int {
    match direction {
        ArbDirection::Long => sum * size + fees,
        ArbDirection::Short => 100 * size,
    }
}

/// Return on investment in percent: `net * 100 / cost` as a decimal, 0 when
/// nothing is at stake.
pub open spec fn roi_of(net: int, cost: int) -> (int, nat) {
    if cost > 0 {
        decimal_quotient(net * 100, cost)
    } else {
        (0int, 0nat)
    }
}

/// The three gates: net profit, return on investment and depth.
pub open spec fn gates_pass(
    net: int,
    roi: (int, nat),
    depth: int,
    size: int,
    min_net: int,
    min_roi: (int, nat),
) -> bool {
    net >= min_net && decimal_ge(roi, min_roi) && depth >= size
}

/// The economics of one direction over a set of quotes.
pub open spec fn opportunity_of(
    event_ticker: Seq<char>,
    event_title: Seq<char>,
    quotes: Seq<BracketQuoteView>,
    direction: ArbDirection,
    size: int,
) -> ArbOpportunityView {
    let sum = sum_prices(quotes, direction);
    let fees = sum_fees(quotes, direction, size);
    let gross = gross_profit(sum, direction, size);
    ArbOpportunityView {
        event_ticker,
        event_title,
        direction,
        brackets: quotes,
        sum_cents: sum,
        total_fees_cents: fees,
        gross_profit_cents: gross,
        net_profit_cents: gross - fees,
        roi_pct: roi_of(gross - fees, total_cost(sum, fees, direction, size)),
    }
}

/// Whether a direction passes its three gates.
pub open spec fn direction_emitted(
    quotes: Seq<BracketQuoteView>,
    direction: ArbDirection,
    size: int,
    min_net: int,
    min_roi: (int, nat),
) -> bool {
    let sum = sum_prices(quotes, direction);
    let fees = sum_fees(quotes, direction, size);
    let net = gross_profit(sum, direction, size) - fees;
    gates_pass(
        net,
        roi_of(net, total_cost(sum, fees, direction, size)),
        min_depth(quotes, direction),
        size,
        min_net,
        min_roi,
    )
}

/// What one direction contributes to the result: its opportunity if it
/// passes the gates, nothing otherwise.
pub open spec fn direction_result(
    event_ticker: Seq<char>,
    event_title: Seq<char>,
    quotes: Seq<BracketQuoteView>,
    direction: ArbDirection,
    size: int,
    min_net: int,
    min_roi: (int, nat),
) -> Option<ArbOpportunityView> {
    if direction_emitted(quotes, direction, size, min_net, min_roi) {
        Some(opportunity_of(event_ticker, event_title, quotes, direction, size))
    } else {
        None
    }
}

/// The opportunities of an event: the long direction first, then the short
/// one, each on its own gates.
pub open spec fn detected(
    event_ticker: Seq<char>,
    event_title: Seq<char>,
    quotes: Seq<BracketQuoteView>,
    size: int,
    min_net: int,
    min_roi: (int, nat),
) -> Seq<ArbOpportunityView> {
    let long = direction_result(
        event_ticker,
        event_title,
        quotes,
        ArbDirection::Long,
        size,
        min_net,
        min_roi,
    );
    let short = direction_result(
        event_ticker,
        event_title,
        quotes,
        ArbDirection::Short,
        size,
        min_net,
        min_roi,
    );
    (match long {
        Some(o) => seq![o],
        None => Seq::empty(),
    }) + (match short {
        Some(o) => seq![o],
        None => Seq::empty(),
    })
}

/// The accounting identity of an opportunity: gross profit is the distance
/// of the price sum from 100 cents times the position size, and net profit
/// is gross profit less fees.
pub open spec fn accounting_identity(opp: ArbOpportunityView, size: int) -> bool {
    &&& opp.gross_profit_cents == (match opp.direction {
        ArbDirection::Long => (100 - opp.sum_cents) * size,
        ArbDirection::Short => (opp.sum_cents - 100) * size,
    })
    &&& opp.net_profit_cents == opp.gross_profit_cents - opp.total_fees_cents
}

/// Two lists of quotes that agree, leg by leg, on the price and the depth
/// that a direction uses.
pub open spec fn same_legs(
    a: Seq<BracketQuoteView>,
    b: Seq<BracketQuoteView>,
    direction: ArbDirection,
) -> bool {
    &&& a.len() == b.len()
    &&& forall|i: int|
        0 <= i < a.len() ==> leg_price(#[trigger] a[i], direction) == leg_price(b[i], direction)
            && leg_depth(a[i], direction) == leg_depth(b[i], direction)
}

/// Quotes with the depth of the side that a direction does not use set to
/// zero: the YES depth for the long direction, the NO depth for the short.
pub open spec fn without_other_depth(
    quotes: Seq<BracketQuoteView>,
    direction: ArbDirection,
) -> Seq<BracketQuoteView> {
    quotes.map_values(
        |q: BracketQuoteView|
            match direction {
                ArbDirection::Long => BracketQuoteView { depth_at_yes: 0, ..q },
                ArbDirection::Short => BracketQuoteView { depth_at_no: 0, ..q },
            },
    )
}

/// Lists that agree on the legs of a direction agree on its sums and on its
/// thinnest leg.
pub proof fn lemma_same_legs(
    a: Seq<BracketQuoteView>,
    b: Seq<BracketQuoteView>,
    direction: ArbDirection,
    size: int,
)
    requires
        same_legs(a, b, direction),
    ensures
        sum_prices(a, direction) == sum_prices(b, direction),
        sum_fees(a, direction, size) == sum_fees(b, direction, size),
        min_depth(a, direction) == min_depth(b, direction),
    decreases a.len(),
{
    if a.len() > 0 {
        let fa = a.drop_last();
        let fb = b.drop_last();
        assert forall|i: int| 0 <= i < fa.len() implies leg_price(#[trigger] fa[i], direction)
            == leg_price(fb[i], direction) && leg_depth(fa[i], direction) == leg_depth(
            fb[i],
            direction,
        ) by {
            assert(fa[i] == a[i]);
            assert(fb[i] == b[i]);
        }
        lemma_same_legs(fa, fb, direction, size);
        assert(leg_price(a[a.len() - 1], direction) == leg_price(b[a.len() - 1], direction));
        assert(leg_depth(a[0], direction) == leg_depth(b[0], direction));
    }
}

/// The gates of a direction read only the legs of that direction: two lists
/// of quotes that agree on them pass or fail together, whatever the depths
/// of the other side are.
pub proof fn gates_read_own_side_only(
    a: Seq<BracketQuoteView>,
    b: Seq<BracketQuoteView>,
    direction: ArbDirection,
    size: int,
    min_net: int,
    min_roi: (int, nat),
)
    requires
        same_legs(a, b, direction),
    ensures
        direction_emitted(a, direction, size, min_net, min_roi) == direction_emitted(
            b,
            direction,
            size,
            min_net,
            min_roi,
        ),
{
    lemma_same_legs(a, b, direction, size);
}

/// The long and the short gates are independent: an empty other side,
/// that is a depth of zero on the side that a direction does not take
/// against, never blocks that direction.
pub proof fn empty_other_side_never_blocks(
    quotes: Seq<BracketQuoteView>,
    direction: ArbDirection,
    size: int,
    min_net: int,
    min_roi: (int, nat),
)
    ensures
        direction_emitted(without_other_depth(quotes, direction), direction, size, min_net, min_roi)
            == direction_emitted(quotes, direction, size, min_net, min_roi),
{
    let zeroed = without_other_depth(quotes, direction);
    assert(same_legs(zeroed, quotes, direction));
    gates_read_own_side_only(zeroed, quotes, direction, size, min_net, min_roi);
}

/// Every leg price lies between 0 and 100 cents.
pub open spec fn prices_in_range(quotes: Seq<BracketQuoteView>) -> bool {
    forall|i: int|
        0 <= i < quotes.len() ==> 0 <= (#[trigger] quotes[i]).yes_ask_cents <= 100 && 0
            <= quotes[i].yes_bid_cents <= 100
}

/// The largest number of brackets, and of brackets times position size, that
/// the evaluation supports: up to it every amount of the accounting, and 100
/// times the net profit, fits in 64 bits.
pub const MAX_EXPOSURE: u64 = 400_000_000_000_000;

/// The quotes and position size that the evaluation supports: prices within
/// 0 to 100 cents, and a worst case of the accounting that fits in 64 bits.
pub open spec fn evaluable(quotes: Seq<BracketQuoteView>, size: int) -> bool {
    &&& prices_in_range(quotes)
    &&& quotes.len() <= MAX_EXPOSURE
    &&& size <= MAX_EXPOSURE
    &&& quotes.len() * size <= MAX_EXPOSURE
}

/// The sum of prices within 0 to 100 lies within 0 to 100 per leg.
pub proof fn lemma_sum_prices_bounds(quotes: Seq<BracketQuoteView>, direction: ArbDirection)
    requires
        prices_in_range(quotes),
    ensures
        0 <= sum_prices(quotes, direction) <= 100 * quotes.len(),
    decreases quotes.len(),
{
    if quotes.len() > 0 {
        let front = quotes.drop_last();
        assert forall|i: int| 0 <= i < front.len() implies 0 <= (#[trigger] front[i]).yes_ask_cents
            <= 100 && 0 <= front[i].yes_bid_cents <= 100 by {
            assert(front[i] == quotes[i]);
        }
        lemma_sum_prices_bounds(front, direction);
        assert(0 <= leg_price(quotes[quotes.len() - 1], direction) <= 100);
    }
}

/// The fees of the legs lie within 0 to two cents per leg and contract.
pub proof fn lemma_sum_fees_bounds(quotes: Seq<BracketQuoteView>, direction: ArbDirection, size: int)
    requires
        size >= 0,
    ensures
        0 <= sum_fees(quotes, direction, size) <= 2 * (quotes.len() * size),
    decreases quotes.len(),
{
    if quotes.len() > 0 {
        let front = quotes.drop_last();
        lemma_sum_fees_bounds(front, direction, size);
        lemma_fee_bounds(size, leg_price(quotes.last(), direction));
        assert(front.len() * size + size == quotes.len() * size) by (nonlinear_arith)
            requires
                front.len() + 1 == quotes.len(),
        ;
    } else {
        assert(quotes.len() * size == 0) by (nonlinear_arith)
            requires
                quotes.len() == 0,
        ;
    }
}

/// A prefix of quotes with prices in range has prices in range.
proof fn lemma_prefix_in_range(quotes: Seq<BracketQuoteView>, n: int)
    requires
        prices_in_range(quotes),
        0 <= n <= quotes.len(),
    ensures
        prices_in_range(quotes.take(n)),
{
    assert forall|i: int| 0 <= i < quotes.take(n).len() implies 0 <= (#[trigger] quotes.take(
        n,
    )[i]).yes_ask_cents <= 100 && 0 <= quotes.take(n)[i].yes_bid_cents <= 100 by {
        assert(quotes.take(n)[i] == quotes[i]);
    }
}

/// Whether the evaluation supports these quotes at this position size.
pub fn is_evaluable(quotes: &[BracketQuote], position_size: u32) -> (ok: bool)
    ensures
        ok == evaluable(quote_views(quotes@), position_size as int),
{
    let ghost views = quote_views(quotes@);
    let mut i: usize = 0;
    while i < quotes.len()
        invariant
            i <= quotes.len(),
            views == quote_views(quotes@),
            forall|j: int|
                0 <= j < i ==> 0 <= (#[trigger] views[j]).yes_ask_cents <= 100 && 0
                    <= views[j].yes_bid_cents <= 100,
        decreases quotes.len() - i,
    {
        let q = &quotes[i];
        if q.yes_ask_cents < 0 || q.yes_ask_cents > 100 || q.yes_bid_cents < 0 || q.yes_bid_cents
            > 100 {
            assert(views[i as int] == quotes[i as int]@);
            return false;
        }
        assert(views[i as int] == quotes[i as int]@);
        i += 1;
    }
    let n: u128 = quotes.len() as u128;
    let size: u128 = position_size as u128;
    assert(n * size <= 0xffff_ffff_ffff_ffff * 0xffff_ffff) by (nonlinear_arith)
        requires
            0 <= n <= 0xffff_ffff_ffff_ffff,
            0 <= size <= 0xffff_ffff,
    ;
    n <= MAX_EXPOSURE as u128 && n * size <= MAX_EXPOSURE as u128
}

/// Whether a direction with these economics passes the three gates: the net
/// profit reaches the floor, the return on investment reaches its floor, and
/// the thinnest leg can take the whole position.
pub fn passes_gates(
    net_profit_cents: i64,
    roi_pct: DecimalPct,
    depth: i64,
    position_size: u32,
    min_net_profit_cents: u32,
    min_roi_pct: DecimalPct,
) -> (pass: bool)
    requires
        roi_pct.wf(),
        min_roi_pct.wf(),
    ensures
        pass == gates_pass(
            net_profit_cents as int,
            roi_pct@,
            depth as int,
            position_size as int,
            min_net_profit_cents as int,
            min_roi_pct@,
        ),
{
    net_profit_cents >= min_net_profit_cents as i64 && roi_pct.at_least(&min_roi_pct) && depth
        >= position_size as i64
}

/// Return on investment in percent of a net profit over the capital at
/// stake; zero when nothing is at stake.
pub fn roi_pct(net_profit_cents: i64, total_cost_cents: i64) -> (roi: DecimalPct)
    requires
        i64::MIN <= net_profit_cents * 100 <= i64::MAX,
    ensures
        roi.wf(),
        roi@ == roi_of(net_profit_cents as int, total_cost_cents as int),
{
    if total_cost_cents > 0 {
        DecimalPct::ratio(net_profit_cents * 100, total_cost_cents)
    } else {
        DecimalPct::zero()
    }
}

/// The view of an optional opportunity.
pub open spec fn opportunity_opt_view(o: Option<ArbOpportunity>) -> Option<ArbOpportunityView> {
    match o {
        Some(opp) => Some(opp@),
        None => None,
    }
}

/// One direction of an event: sums the leg prices and the per-leg fees,
/// derives gross and net profit, cost and return, finds the thinnest leg,
/// and gives the opportunity if all three gates pass.
pub fn evaluate_direction(
    event_ticker: &str,
    event_title: &str,
    quotes: &[BracketQuote],
    direction: ArbDirection,
    position_size: u32,
    min_net_profit_cents: u32,
    min_roi_pct: DecimalPct,
) -> (found: Option<ArbOpportunity>)
    requires
        evaluable(quote_views(quotes@), position_size as int),
        min_roi_pct.wf(),
    ensures
        opportunity_opt_view(found) == direction_result(
            event_ticker@,
            event_title@,
            quote_views(quotes@),
            direction,
            position_size as int,
            min_net_profit_cents as int,
            min_roi_pct@,
        ),
        found matches Some(opp) ==> opp.roi_pct.wf(),
{
    let ghost views = quote_views(quotes@);
    let ghost size = position_size as int;
    let mut sum_cents: i64 = 0;
    let mut total_fees: i64 = 0;
    let mut depth: i64 = 0;
    let mut i: usize = 0;
    while i < quotes.len()
        invariant
            i <= quotes.len(),
            views == quote_views(quotes@),
            size == position_size as int,
            evaluable(views, size),
            sum_cents == sum_prices(views.take(i as int), direction),
            total_fees == sum_fees(views.take(i as int), direction, size),
            depth == min_depth(views.take(i as int), direction),
        decreases quotes.len() - i,
    {
        let q = &quotes[i];
        proof {
            assert(views.take(i + 1).drop_last() =~= views.take(i as int));
            assert(views.take(i + 1).last() == quotes[i as int]@);
            assert(views[i as int] == quotes[i as int]@);
            lemma_prefix_in_range(views, i as int);
            lemma_prefix_in_range(views, i + 1);
            lemma_sum_prices_bounds(views.take(i as int), direction);
            lemma_sum_prices_bounds(views.take(i + 1), direction);
            lemma_sum_fees_bounds(views.take(i as int), direction, size);
            lemma_sum_fees_bounds(views.take(i + 1), direction, size);
            assert((i + 1) * size <= quotes.len() * size) by (nonlinear_arith)
                requires
                    i + 1 <= quotes.len(),
                    size >= 0,
            ;
            assert(i * size <= quotes.len() * size) by (nonlinear_arith)
                requires
                    i <= quotes.len(),
                    size >= 0,
            ;
        }
        let (price, leg) = match direction {
            ArbDirection::Long => (q.yes_ask_cents, q.depth_at_no),
            ArbDirection::Short => (q.yes_bid_cents, q.depth_at_yes),
        };
        sum_cents = sum_cents + price;
        total_fees = total_fees + taker_fee_cents(position_size, price);
        if i == 0 || leg < depth {
            depth = leg;
        }
        i += 1;
    }
    proof {
        assert(views.take(quotes.len() as int) =~= views);
        lemma_sum_prices_bounds(views, direction);
        lemma_sum_fees_bounds(views, direction, size);
    }
    let size64: i64 = position_size as i64;
    let ghost n = quotes.len() as int;
    let per_contract: i64 = match direction {
        ArbDirection::Long => 100 - sum_cents,
        ArbDirection::Short => sum_cents - 100,
    };
    assert(-100 * size - 100 * (n * size) <= per_contract * size64 <= 100 * size + 100 * (n
        * size)) by (nonlinear_arith)
        requires
            -100 - 100 * n <= per_contract <= 100 + 100 * n,
            size64 == size,
            size >= 0,
            n >= 0,
    ;
    let gross_profit: i64 = per_contract * size64;
    let net_profit: i64 = gross_profit - total_fees;
    assert(0 <= sum_cents * size64 <= 100 * (n * size)) by (nonlinear_arith)
        requires
            0 <= sum_cents <= 100 * n,
            size64 == size,
            size >= 0,
    ;
    let total_cost: i64 = match direction {
        ArbDirection::Long => sum_cents * size64 + total_fees,
        ArbDirection::Short => 100 * size64,
    };
    let roi = roi_pct(net_profit, total_cost);
    if passes_gates(net_profit, roi, depth, position_size, min_net_profit_cents, min_roi_pct) {
        Some(
            ArbOpportunity {
                event_ticker: event_ticker.to_owned(),
                event_title: event_title.to_owned(),
                direction,
                brackets: clone_quotes(quotes),
                sum_cents,
                total_fees_cents: total_fees,
                gross_profit_cents: gross_profit,
                net_profit_cents: net_profit,
                roi_pct: roi,
            },
        )
    } else {
        None
    }
}

/// Detects Dutch-book arbitrage over the quotes of one mutually exclusive
/// event. Both directions are evaluated, each on its own gates; the result
/// holds the long opportunity, if any, before the short one.
pub fn detect_arb(
    event_ticker: &str,
    event_title: &str,
    quotes: &[BracketQuote],
    position_size: u32,
    min_net_profit_cents: u32,
    min_roi_pct: DecimalPct,
) -> (opps: Vec<ArbOpportunity>)
    requires
        evaluable(quote_views(quotes@), position_size as int),
        min_roi_pct.wf(),
    ensures
        opportunity_views(opps@) == detected(
            event_ticker@,
            event_title@,
            quote_views(quotes@),
            position_size as int,
            min_net_profit_cents as int,
            min_roi_pct@,
        ),
        forall|i: int|
            0 <= i < opps.len() ==> accounting_identity(
                (#[trigger] opps[i])@,
                position_size as int,
            ),
        forall|i: int| 0 <= i < opps.len() ==> (#[trigger] opps[i]).roi_pct.wf(),
{
    let mut opps: Vec<ArbOpportunity> = Vec::new();
    let long = evaluate_direction(
        event_ticker,
        event_title,
        quotes,
        ArbDirection::Long,
        position_size,
        min_net_profit_cents,
        min_roi_pct,
    );
    if let Some(opp) = long {
        opps.push(opp);
    }
    let short = evaluate_direction(
        event_ticker,
        event_title,
        quotes,
        ArbDirection::Short,
        position_size,
        min_net_profit_cents,
        min_roi_pct,
    );
    if let Some(opp) = short {
        opps.push(opp);
    }
    assert(opportunity_views(opps@) =~= detected(
        event_ticker@,
        event_title@,
        quote_views(quotes@),
        position_size as int,
        min_net_profit_cents as int,
        min_roi_pct@,
    ));
    opps
}

} // verus!
