//! The decisions of a scan cycle: which series and events are looked at,
//! when the cached series list is refreshed, what a set of order books
//! yields, and whether an opportunity is executed.

use crate::decimal::DecimalPct;
use crate::detector::{
    detect_arb, detected, is_quotable, lemma_best_price_is_max, prices_in_range, quotable,
    quote_from_orderbook, quote_of, MAX_EXPOSURE,
};
use crate::executor::ticker_views;
use crate::kalshi::types::{
    opportunity_views, quote_views, ArbOpportunity, ArbOpportunityView, BracketQuote,
    BracketQuoteView, Event, Market, MarketView, Orderbook, OrderbookView, Series, SeriesView,
};
use crate::risk::{RiskBlock, RiskLimits, UtcDate};
use crate::text::text_eq;
use vstd::prelude::*;

verus! {

// --- Series cache ---

/// The full series list with the time it was fetched at. Times are readings
/// of a monotonic clock in nanoseconds.
#[derive(Debug, PartialEq, Eq)]
pub struct SeriesCache {
    pub series: Vec<Series>,
    pub fetched_at_nanos: Option<u128>,
    pub ttl_nanos: u128,
}

impl SeriesCache {
    /// Whether the list is stale at `now`: it was never fetched, or its age
    /// has reached the time to live.
    pub open spec fn stale_at(self, now_nanos: u128) -> bool {
        match self.fetched_at_nanos {
            None => true,
            Some(t) => (if now_nanos >= t {
                now_nanos - t
            } else {
                0
            }) >= self.ttl_nanos,
        }
    }

    /// An empty cache, stale from the start so that the first lookup
    /// fetches.
    pub fn new(ttl_secs: u64) -> (cache: SeriesCache)
        ensures
            cache.series@.len() == 0,
            cache.fetched_at_nanos is None,
            cache.ttl_nanos == ttl_secs * 1_000_000_000,
    {
        SeriesCache {
            series: Vec::new(),
            fetched_at_nanos: None,
            ttl_nanos: ttl_secs as u128 * 1_000_000_000,
        }
    }

    /// Whether the list must be refreshed at `now`.
    pub fn is_stale(&self, now_nanos: u128) -> (stale: bool)
        ensures
            stale == self.stale_at(now_nanos),
    {
        match self.fetched_at_nanos {
            None => true,
            Some(t) => {
                let age = if now_nanos >= t {
                    now_nanos - t
                } else {
                    0
                };
                age >= self.ttl_nanos
            },
        }
    }

    /// Takes in the outcome of a refresh that ended at `now`. A fresh list
    /// replaces the old one and is stamped. A failure leaves the cache as it
    /// was: with a list in it the stale list serves and the lookup succeeds;
    /// with none the failure is handed on.
    pub fn settle<E>(&mut self, refreshed: Result<Vec<Series>, E>, now_nanos: u128) -> (served:
        Result<(), E>)
        ensures
            final(self).ttl_nanos == old(self).ttl_nanos,
            refreshed matches Ok(fresh) ==> served is Ok && final(self).series@ == fresh@,
            refreshed is Ok ==> final(self).fetched_at_nanos == Some(now_nanos),
            refreshed is Ok && old(self).ttl_nanos > 0 ==> !final(self).stale_at(now_nanos),
            refreshed is Err ==> final(self).series@ == old(self).series@,
            refreshed is Err ==> final(self).fetched_at_nanos == old(self).fetched_at_nanos,
            refreshed matches Err(e) ==> served == (if old(self).series@.len() == 0 {
                Err::<(), E>(e)
            } else {
                Ok::<(), E>(())
            }),
    {
        match refreshed {
            Ok(fresh) => {
                self.series = fresh;
                self.fetched_at_nanos = Some(now_nanos);
                Ok(())
            },
            Err(e) => {
                if self.series.is_empty() {
                    Err(e)
                } else {
                    Ok(())
                }
            },
        }
    }
}

// --- Series whitelist ---

/// The views of a list of series.
pub open spec fn series_views(all: Seq<Series>) -> Seq<SeriesView> {
    all.map_values(|s: Series| s@)
}

/// The series whose ticker the whitelist names, in their order.
pub open spec fn listed(all: Seq<SeriesView>, filter: Seq<Seq<char>>) -> Seq<SeriesView>
    decreases all.len(),
{
    if all.len() == 0 {
        Seq::empty()
    } else {
        let front = listed(all.drop_last(), filter);
        if filter.contains(all.last().ticker) {
            front.push(all.last())
        } else {
            front
        }
    }
}

/// The series to scan: all of them under an empty whitelist, otherwise
/// those that it names.
pub open spec fn series_to_scan(all: Seq<SeriesView>, filter: Seq<Seq<char>>) -> Seq<SeriesView> {
    if filter.len() == 0 {
        all
    } else {
        listed(all, filter)
    }
}

/// Whether the whitelist names `ticker`.
pub fn is_listed(filter: &[String], ticker: &str) -> (found: bool)
    ensures
        found == ticker_views(filter@).contains(ticker@),
{
    let ghost names = ticker_views(filter@);
    let mut i: usize = 0;
    while i < filter.len()
        invariant
            i <= filter.len(),
            names == ticker_views(filter@),
            forall|j: int| 0 <= j < i ==> names[j] != ticker@,
        decreases filter.len() - i,
    {
        if text_eq(filter[i].as_str(), ticker) {
            assert(names[i as int] == ticker@);
            return true;
        }
        i += 1;
    }
    false
}

/// Applies the optional whitelist to the series list.
pub fn select_series(all: &[Series], filter: &[String]) -> (chosen: Vec<Series>)
    ensures
        series_views(chosen@) == series_to_scan(series_views(all@), ticker_views(filter@)),
{
    let ghost views = series_views(all@);
    let ghost names = ticker_views(filter@);
    let keep_all = filter.len() == 0;
    let mut chosen: Vec<Series> = Vec::new();
    let mut i: usize = 0;
    assert(views.take(0) =~= Seq::empty());
    while i < all.len()
        invariant
            i <= all.len(),
            views == series_views(all@),
            names == ticker_views(filter@),
            keep_all == (filter.len() == 0),
            keep_all ==> series_views(chosen@) =~= views.take(i as int),
            !keep_all ==> series_views(chosen@) =~= listed(views.take(i as int), names),
        decreases all.len() - i,
    {
        let ghost before = series_views(chosen@);
        proof {
            assert(views.take(i + 1).drop_last() =~= views.take(i as int));
            assert(views.take(i + 1).last() == all[i as int]@);
        }
        if keep_all || is_listed(filter, all[i].ticker.as_str()) {
            chosen.push(all[i].clone());
            assert(series_views(chosen@) =~= before.push(all[i as int]@));
            assert(views.take(i + 1) =~= views.take(i as int).push(all[i as int]@));
        }
        i += 1;
    }
    assert(views.take(all.len() as int) =~= views);
    chosen
}

// --- Structural gates ---

/// The views of a list of markets.
pub open spec fn market_views(markets: Seq<Market>) -> Seq<MarketView> {
    markets.map_values(|m: Market| m@)
}

/// The markets in status `active`, in their order.
pub open spec fn active_of(markets: Seq<MarketView>) -> Seq<MarketView>
    decreases markets.len(),
{
    if markets.len() == 0 {
        Seq::empty()
    } else {
        let front = active_of(markets.drop_last());
        if markets.last().status == "active"@ {
            front.push(markets.last())
        } else {
            front
        }
    }
}

/// Whether an event is looked at: it is mutually exclusive and the number
/// of its active markets lies within the configured bounds.
pub open spec fn admitted(
    mutually_exclusive: bool,
    markets: Seq<MarketView>,
    min_brackets: int,
    max_brackets: int,
) -> bool {
    mutually_exclusive && min_brackets <= active_of(markets).len() <= max_brackets
}

/// The active markets of an event.
pub fn active_markets(event: &Event) -> (active: Vec<Market>)
    ensures
        market_views(active@) == active_of(event@.markets),
{
    let ghost views = event@.markets;
    let mut active: Vec<Market> = Vec::new();
    let mut i: usize = 0;
    assert(views.take(0) =~= Seq::empty());
    while i < event.markets.len()
        invariant
            i <= event.markets.len(),
            views == event@.markets,
            market_views(active@) =~= active_of(views.take(i as int)),
        decreases event.markets.len() - i,
    {
        let ghost before = market_views(active@);
        proof {
            assert(views.take(i + 1).drop_last() =~= views.take(i as int));
            assert(views.take(i + 1).last() == event.markets[i as int]@);
        }
        if text_eq(event.markets[i].status.as_str(), "active") {
            active.push(event.markets[i].clone());
            assert(market_views(active@) =~= before.push(event.markets[i as int]@));
        }
        i += 1;
    }
    assert(views.take(event.markets.len() as int) =~= views);
    active
}

/// The markets to quote for an event, if the event passes the structural
/// gates.
pub fn admit_event(event: &Event, min_brackets: usize, max_brackets: usize) -> (brackets: Option<
    Vec<Market>,
>)
    ensures
        brackets is Some <==> admitted(
            event.mutually_exclusive,
            event@.markets,
            min_brackets as int,
            max_brackets as int,
        ),
        brackets matches Some(active) ==> market_views(active@) == active_of(event@.markets),
{
    if !event.mutually_exclusive {
        return None;
    }
    let active = active_markets(event);
    if active.len() < min_brackets || active.len() > max_brackets {
        return None;
    }
    Some(active)
}

// --- Quotes and opportunities of an event ---

/// The view of a fetched book; `None` stands for a fetch that failed.
pub open spec fn book_views(books: Seq<Option<Orderbook>>) -> Seq<Option<OrderbookView>> {
    books.map_values(
        |b: Option<Orderbook>|
            match b {
                Some(book) => Some(book@),
                None => None,
            },
    )
}

/// The quotes of the markets of an event, one per market: there are none
/// at all when any book is missing or has nobody bidding NO.
pub open spec fn event_quotes_of(markets: Seq<MarketView>, books: Seq<Option<OrderbookView>>) -> Option<
    Seq<BracketQuoteView>,
>
    decreases markets.len(),
{
    if books.len() != markets.len() {
        None
    } else if markets.len() == 0 {
        Some(Seq::empty())
    } else {
        match (event_quotes_of(markets.drop_last(), books.drop_last()), books.last()) {
            (Some(front), Some(book)) => match quote_of(
                markets.last().ticker,
                markets.last().title,
                book,
            ) {
                Some(q) => Some(front.push(q)),
                None => None,
            },
            _ => None,
        }
    }
}

/// The opportunities of an event: those of its quotes when every market
/// has one, none otherwise.
pub open spec fn event_opportunities(
    event_ticker: Seq<char>,
    event_title: Seq<char>,
    markets: Seq<MarketView>,
    books: Seq<Option<OrderbookView>>,
    size: int,
    min_net: int,
    min_roi: (int, nat),
) -> Seq<ArbOpportunityView> {
    match event_quotes_of(markets, books) {
        Some(quotes) => detected(event_ticker, event_title, quotes, size, min_net, min_roi),
        None => Seq::empty(),
    }
}

/// Every book that was fetched can be quoted in 64-bit cents.
pub open spec fn books_quotable(books: Seq<Option<OrderbookView>>) -> bool {
    forall|i: int|
        0 <= i < books.len() ==> ((#[trigger] books[i]) matches Some(book) ==> quotable(book))
}

/// The books and position size that a scan of an event supports: one book
/// per market, every fetched book quotable, and a worst case of the
/// accounting that fits in 64 bits.
pub open spec fn scannable(markets: nat, books: Seq<Option<OrderbookView>>, size: int) -> bool {
    &&& books.len() == markets
    &&& books_quotable(books)
    &&& markets <= MAX_EXPOSURE
    &&& markets * size <= MAX_EXPOSURE
}

/// Whether a scan supports these books of these markets at this position
/// size.
pub fn is_scannable(markets: &[Market], books: &[Option<Orderbook>], position_size: u32) -> (ok:
    bool)
    ensures
        ok == scannable(markets@.len(), book_views(books@), position_size as int),
{
    if books.len() != markets.len() {
        return false;
    }
    let ghost views = book_views(books@);
    let mut i: usize = 0;
    while i < books.len()
        invariant
            i <= books.len(),
            views == book_views(books@),
            forall|j: int|
                0 <= j < i ==> ((#[trigger] views[j]) matches Some(book) ==> quotable(book)),
        decreases books.len() - i,
    {
        match &books[i] {
            Some(book) => {
                assert(views[i as int] == Some(book@));
                if !is_quotable(book) {
                    return false;
                }
            },
            None => {},
        }
        i += 1;
    }
    let n: u128 = markets.len() as u128;
    let size: u128 = position_size as u128;
    assert(n * size <= 0xffff_ffff_ffff_ffff * 0xffff_ffff) by (nonlinear_arith)
        requires
            0 <= n <= 0xffff_ffff_ffff_ffff,
            0 <= size <= 0xffff_ffff,
    ;
    n <= MAX_EXPOSURE as u128 && n * size <= MAX_EXPOSURE as u128
}

/// A missing book, or one with nobody bidding NO, leaves the event without
/// quotes.
pub proof fn lemma_missing_quote_blocks(
    markets: Seq<MarketView>,
    books: Seq<Option<OrderbookView>>,
    k: int,
)
    requires
        markets.len() == books.len(),
        0 <= k < books.len(),
        books[k] matches Some(book) ==> book.no.len() == 0,
    ensures
        event_quotes_of(markets, books) is None,
    decreases markets.len(),
{
    if k < markets.len() - 1 {
        assert(books.drop_last()[k] == books[k]);
        lemma_missing_quote_blocks(markets.drop_last(), books.drop_last(), k);
    }
}

/// An event with any market whose NO side is empty yields no opportunity.
pub proof fn empty_no_side_yields_nothing(
    event_ticker: Seq<char>,
    event_title: Seq<char>,
    markets: Seq<MarketView>,
    books: Seq<Option<OrderbookView>>,
    k: int,
    size: int,
    min_net: int,
    min_roi: (int, nat),
)
    requires
        markets.len() == books.len(),
        0 <= k < books.len(),
        books[k] matches Some(book) && book.no.len() == 0,
    ensures
        event_opportunities(event_ticker, event_title, markets, books, size, min_net, min_roi)
            == Seq::<ArbOpportunityView>::empty(),
{
    lemma_missing_quote_blocks(markets, books, k);
}

/// Quotes of quotable books have their prices within 0 to 100 cents.
pub proof fn lemma_event_quotes_in_range(
    markets: Seq<MarketView>,
    books: Seq<Option<OrderbookView>>,
)
    requires
        books_quotable(books),
        event_quotes_of(markets, books) is Some,
    ensures
        prices_in_range(event_quotes_of(markets, books).unwrap()),
        event_quotes_of(markets, books).unwrap().len() == markets.len(),
    decreases markets.len(),
{
    if markets.len() > 0 && books.len() == markets.len() {
        let front_books = books.drop_last();
        assert forall|i: int| 0 <= i < front_books.len() implies ((
        #[trigger] front_books[i]) matches Some(book) ==> quotable(book)) by {
            assert(front_books[i] == books[i]);
        }
        lemma_event_quotes_in_range(markets.drop_last(), front_books);
        let book = books[books.len() - 1].unwrap();
        assert(quotable(book));
        lemma_best_price_is_max(book.no);
        if book.yes.len() > 0 {
            lemma_best_price_is_max(book.yes);
        }
    }
}

/// The quotes of the markets of an event from their books, in the order of
/// the markets. A book is `None` when its fetch failed. Partial sets are
/// never handed out: one missing book, or one with nobody bidding NO, and
/// there is no quote at all.
pub fn event_quotes(markets: &[Market], books: &[Option<Orderbook>]) -> (quotes: Option<
    Vec<BracketQuote>,
>)
    requires
        markets.len() == books.len(),
        books_quotable(book_views(books@)),
    ensures
        (match quotes {
            Some(qs) => Some(quote_views(qs@)),
            None => None,
        }) == event_quotes_of(market_views(markets@), book_views(books@)),
{
    let ghost mviews = market_views(markets@);
    let ghost bviews = book_views(books@);
    let mut quotes: Vec<BracketQuote> = Vec::new();
    let mut i: usize = 0;
    assert(mviews.take(0) =~= Seq::empty());
    assert(bviews.take(0) =~= Seq::empty());
    assert(quote_views(quotes@) =~= Seq::empty());
    while i < markets.len()
        invariant
            i <= markets.len(),
            markets.len() == books.len(),
            mviews == market_views(markets@),
            bviews == book_views(books@),
            books_quotable(bviews),
            event_quotes_of(mviews.take(i as int), bviews.take(i as int)) == Some(
                quote_views(quotes@),
            ),
        decreases markets.len() - i,
    {
        let ghost before = quote_views(quotes@);
        proof {
            assert(mviews.take(i + 1).drop_last() =~= mviews.take(i as int));
            assert(bviews.take(i + 1).drop_last() =~= bviews.take(i as int));
            assert(mviews.take(i + 1).last() == markets[i as int]@);
            assert(bviews.take(i + 1).last() == bviews[i as int]);
        }
        let quote = match &books[i] {
            Some(book) => {
                assert(bviews[i as int] == Some(book@));
                quote_from_orderbook(
                    markets[i].ticker.as_str(),
                    markets[i].title.as_str(),
                    book,
                )
            },
            None => None,
        };
        match quote {
            Some(q) => {
                quotes.push(q);
                assert(quote_views(quotes@) =~= before.push(q@));
            },
            None => {
                proof {
                    lemma_missing_quote_blocks(mviews, bviews, i as int);
                }
                return None;
            },
        }
        i += 1;
    }
    assert(mviews.take(markets.len() as int) =~= mviews);
    assert(bviews.take(markets.len() as int) =~= bviews);
    Some(quotes)
}

/// The opportunities of one event from the books of its active markets.
/// The event is skipped as a whole, with no opportunity, when any book is
/// missing or has nobody bidding NO.
pub fn scan_event(
    event_ticker: &str,
    event_title: &str,
    markets: &[Market],
    books: &[Option<Orderbook>],
    position_size: u32,
    min_net_profit_cents: u32,
    min_roi_pct: DecimalPct,
) -> (opps: Vec<ArbOpportunity>)
    requires
        scannable(markets@.len(), book_views(books@), position_size as int),
        min_roi_pct.wf(),
    ensures
        opportunity_views(opps@) == event_opportunities(
            event_ticker@,
            event_title@,
            market_views(markets@),
            book_views(books@),
            position_size as int,
            min_net_profit_cents as int,
            min_roi_pct@,
        ),
{
    match event_quotes(markets, books) {
        Some(quotes) => {
            proof {
                lemma_event_quotes_in_range(market_views(markets@), book_views(books@));
            }
            detect_arb(
                event_ticker,
                event_title,
                quotes.as_slice(),
                position_size,
                min_net_profit_cents,
                min_roi_pct,
            )
        },
        None => {
            let opps: Vec<ArbOpportunity> = Vec::new();
            assert(opportunity_views(opps@) =~= Seq::empty());
            opps
        },
    }
}

// --- Dispatch ---

/// What is done with a detected opportunity.
#[derive(Debug, Clone, Copy, PartialEq, Eq, Structural)]
pub enum Dispatch {
    /// Dry run: the opportunity is recorded and nothing is sent.
    RecordOnly,
    /// A circuit breaker blocks the execution.
    Blocked(RiskBlock),
    /// The orders are placed.
    Execute,
}

/// The decision on an opportunity on the date `now`. In a dry run the
/// counters are neither consulted nor touched.
pub open spec fn dispatch_of(dry_run: bool, limits: RiskLimits, now: UtcDate) -> (Dispatch, RiskLimits) {
    if dry_run {
        (Dispatch::RecordOnly, limits)
    } else {
        (
            match limits.rolled(now).blocked_by() {
                Some(block) => Dispatch::Blocked(block),
                None => Dispatch::Execute,
            },
            limits.rolled(now),
        )
    }
}

/// In a dry run no opportunity is handed on for execution, so that no order
/// is placed or cancelled on its account, and the risk counters stay as
/// they are, whatever they hold and whatever the date is.
pub proof fn dry_run_never_executes(limits: RiskLimits, now: UtcDate)
    ensures
        dispatch_of(true, limits, now) == (Dispatch::RecordOnly, limits),
{
}

/// Decides on the date `now` whether a detected opportunity is executed.
/// In a dry run nothing is ever executed, and the risk limiter is not
/// consulted.
pub fn dispatch_on(dry_run: bool, limits: &mut RiskLimits, now: UtcDate) -> (decision: Dispatch)
    ensures
        (decision, *final(limits)) == dispatch_of(dry_run, *old(limits), now),
        dry_run ==> decision == Dispatch::RecordOnly,
{
    if dry_run {
        return Dispatch::RecordOnly;
    }
    match limits.check_on(now) {
        Some(block) => Dispatch::Blocked(block),
        None => Dispatch::Execute,
    }
}

/// Decides whether a detected opportunity is executed today.
pub fn dispatch(dry_run: bool, limits: &mut RiskLimits) -> (decision: Dispatch)
    ensures
        exists|now: UtcDate| (decision, *final(limits)) == dispatch_of(dry_run, *old(limits), now),
        dry_run ==> decision == Dispatch::RecordOnly && *final(limits) == *old(limits),
        decision == Dispatch::Execute ==> !dry_run && final(limits).blocked_by() is None,
{
    if dry_run {
        assert((Dispatch::RecordOnly, *limits) == dispatch_of(dry_run, *limits, limits.today));
        return Dispatch::RecordOnly;
    }
    let ghost before = *limits;
    let block = limits.check();
    let decision = match block {
        Some(block) => Dispatch::Blocked(block),
        None => Dispatch::Execute,
    };
    proof {
        let now = choose|now: UtcDate|
            *limits == before.rolled(now) && block == before.rolled(now).blocked_by();
        assert((decision, *limits) == dispatch_of(dry_run, before, now));
    }
    decision
}

} // verus!
