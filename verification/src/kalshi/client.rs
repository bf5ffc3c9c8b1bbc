//! The rules of the exchange client: which paths it asks for, how it spaces
//! reads, how it backs off when the exchange answers 429, and how it walks
//! paginated listings. Sending and awaiting are left to the caller.

use crate::kalshi::types::{
    str_opt, text_opt, Event, EventsResponse, Series, SeriesResponse,
};
use crate::text::{decimal_digits, push_decimal};
use vstd::arithmetic::power2::{lemma2_to64, lemma_pow2_strictly_increases, pow2};
use vstd::prelude::*;

verus! {

/// The HTTP status that signals rate limiting.
pub const TOO_MANY_REQUESTS: u16 = 429;

/// The hard timeout of every request, in seconds.
pub const REQUEST_TIMEOUT_SECS: u64 = 15;

/// Nanoseconds in a second.
pub const NANOS_PER_SEC: u128 = 1_000_000_000;

/// The path of order placement.
pub const ORDERS_PATH: &'static str = "/portfolio/orders";

/// The methods that the client uses.
#[derive(Debug, Clone, Copy, PartialEq, Eq, Structural)]
pub enum Method {
    Get,
    Post,
    Delete,
}

impl Method {
    /// How often a request is sent again after a 429: three times for a
    /// read, twice for a write.
    pub open spec fn retry_limit(self) -> nat {
        match self {
            Method::Get => 3,
            Method::Post => 2,
            Method::Delete => 2,
        }
    }

    /// The longest back-off in seconds: ten for a read, five for a write.
    pub open spec fn cap_secs(self) -> nat {
        match self {
            Method::Get => 10,
            Method::Post => 5,
            Method::Delete => 5,
        }
    }

    /// The upper-case name of the method.
    pub open spec fn name_text(self) -> Seq<char> {
        match self {
            Method::Get => "GET"@,
            Method::Post => "POST"@,
            Method::Delete => "DELETE"@,
        }
    }

    /// The upper-case name of the method, as it is signed and reported.
    pub fn name(&self) -> (name: &'static str)
        ensures
            name@ == self.name_text(),
    {
        match self {
            Method::Get => "GET",
            Method::Post => "POST",
            Method::Delete => "DELETE",
        }
    }

    /// How often a request is sent again after a 429.
    pub fn max_retries(&self) -> (n: u32)
        ensures
            n == self.retry_limit(),
    {
        match self {
            Method::Get => 3,
            Method::Post => 2,
            Method::Delete => 2,
        }
    }

    /// The longest back-off in seconds.
    pub fn backoff_cap_secs(&self) -> (n: u64)
        ensures
            n == self.cap_secs(),
    {
        match self {
            Method::Get => 10,
            Method::Post => 5,
            Method::Delete => 5,
        }
    }

    /// Whether requests of this method pass the read throttle: reads do,
    /// writes do not.
    pub fn is_throttled(&self) -> (r: bool)
        ensures
            r == (*self == Method::Get),
    {
        matches!(self, Method::Get)
    }
}

// --- Read throttle ---

/// How long a read waits before it starts: what is left of the minimum
/// spacing since the last read started, nothing once it has elapsed.
pub fn throttle_wait(read_delay_nanos: u128, elapsed_nanos: u128) -> (wait: u128)
    ensures
        wait == (if elapsed_nanos < read_delay_nanos {
            read_delay_nanos - elapsed_nanos
        } else {
            0
        }),
        elapsed_nanos + wait >= read_delay_nanos,
{
    if elapsed_nanos < read_delay_nanos {
        read_delay_nanos - elapsed_nanos
    } else {
        0
    }
}

// --- Back-off ---

/// The default back-off in seconds before retry number `attempt + 1`:
/// `2^attempt`, but no more than the cap of the method.
pub open spec fn backoff_secs(method: Method, attempt: nat) -> nat {
    if pow2(attempt) < method.cap_secs() {
        pow2(attempt)
    } else {
        method.cap_secs()
    }
}

/// The wait before a retry in nanoseconds: what `Retry-After` asked for
/// when it was present and parseable, otherwise the default back-off.
pub open spec fn retry_wait_nanos(method: Method, attempt: nat, retry_after_nanos: Option<u128>) -> u128 {
    match retry_after_nanos {
        Some(n) => n,
        None => (backoff_secs(method, attempt) * 1_000_000_000) as u128,
    }
}

/// The default back-off in seconds before retry number `attempt + 1`.
pub fn default_backoff_secs(method: Method, attempt: u32) -> (secs: u64)
    ensures
        secs == backoff_secs(method, attempt as nat),
{
    proof {
        lemma2_to64();
        if attempt > 4 {
            lemma_pow2_strictly_increases(4, attempt as nat);
        }
    }
    let cap = method.backoff_cap_secs();
    let base: u64 = if attempt == 0 {
        1
    } else if attempt == 1 {
        2
    } else if attempt == 2 {
        4
    } else if attempt == 3 {
        8
    } else {
        cap
    };
    if base < cap {
        base
    } else {
        cap
    }
}

/// What the client does with a response.
#[derive(Debug, Clone, Copy, PartialEq, Eq, Structural)]
pub enum Step {
    /// The response is a success: its body is the answer.
    Accept,
    /// A cancellation that the exchange did not confirm: it is logged and
    /// taken as done, since cancelling is best effort.
    AcceptUnconfirmed,
    /// Rate limited: wait, then send the request again.
    Retry { wait_nanos: u128 },
    /// Rate limited on the last attempt: fail with the body of the response.
    FailRateLimited,
    /// Any other status that is no success: fail with status and body.
    FailStatus,
}

/// The step that a response calls for. `attempt` counts the requests sent
/// before this one.
pub open spec fn step_for(
    method: Method,
    attempt: nat,
    status: u16,
    retry_after_nanos: Option<u128>,
) -> Step {
    if status == TOO_MANY_REQUESTS {
        if attempt >= method.retry_limit() {
            if method == Method::Delete {
                Step::AcceptUnconfirmed
            } else {
                Step::FailRateLimited
            }
        } else {
            Step::Retry {
                wait_nanos: retry_wait_nanos(method, attempt, retry_after_nanos),
            }
        }
    } else if 200 <= status < 300 {
        Step::Accept
    } else if method == Method::Delete {
        Step::AcceptUnconfirmed
    } else {
        Step::FailStatus
    }
}

/// Decides what to do with a response of the given status to a request
/// that was sent `attempt` times before. `retry_after_nanos` is the
/// `Retry-After` header where it was present and parseable.
pub fn next_step(method: Method, attempt: u32, status: u16, retry_after_nanos: Option<u128>) -> (step:
    Step)
    ensures
        step == step_for(method, attempt as nat, status, retry_after_nanos),
{
    if status == TOO_MANY_REQUESTS {
        if attempt >= method.max_retries() {
            if matches!(method, Method::Delete) {
                Step::AcceptUnconfirmed
            } else {
                Step::FailRateLimited
            }
        } else {
            let wait_nanos = match retry_after_nanos {
                Some(n) => n,
                None => default_backoff_secs(method, attempt) as u128 * NANOS_PER_SEC,
            };
            Step::Retry { wait_nanos }
        }
    } else if 200 <= status && status < 300 {
        Step::Accept
    } else if matches!(method, Method::Delete) {
        Step::AcceptUnconfirmed
    } else {
        Step::FailStatus
    }
}

/// What the exchange answered: the status and the `Retry-After` header where
/// it was present and parseable.
pub struct Answer {
    pub status: u16,
    pub retry_after_nanos: Option<u128>,
}

/// The number of requests that are sent when the exchange gives these
/// answers in turn, from the request after `attempt` earlier ones on: each
/// answer that calls for a retry is followed by one more request.
pub open spec fn requests_sent(method: Method, answers: Seq<Answer>, attempt: nat) -> nat
    decreases answers.len(),
{
    if answers.len() == 0 {
        0
    } else {
        match step_for(method, attempt, answers[0].status, answers[0].retry_after_nanos) {
            Step::Retry { .. } => 1 + requests_sent(method, answers.drop_first(), attempt + 1),
            _ => 1,
        }
    }
}

/// Retries are bounded: whatever the exchange answers, a request is sent at
/// most once more than the retry limit of its method allows.
pub proof fn retries_are_bounded(method: Method, answers: Seq<Answer>, attempt: nat)
    requires
        attempt <= method.retry_limit(),
    ensures
        requests_sent(method, answers, attempt) <= method.retry_limit() - attempt + 1,
    decreases answers.len(),
{
    if answers.len() > 0 && attempt < method.retry_limit() {
        retries_are_bounded(method, answers.drop_first(), attempt + 1);
    }
}

// --- Paths ---

/// The address of a request: the base address followed by the path.
pub fn request_url(base_url: &str, path: &str) -> (url: String)
    ensures
        url@ == base_url@ + path@,
{
    let mut url = base_url.to_owned();
    url.append(path);
    url
}

/// The path of one page of the series catalog.
pub open spec fn series_path_of(cursor: Option<Seq<char>>) -> Seq<char> {
    match cursor {
        Some(c) => "/series?cursor="@ + c,
        None => "/series"@,
    }
}

/// The path of one page of the events of a series, with nested markets and
/// only open events.
pub open spec fn events_path_of(series_ticker: Seq<char>, cursor: Option<Seq<char>>) -> Seq<char> {
    let first = "/events?series_ticker="@ + series_ticker + "&with_nested_markets=true&status=open"@;
    match cursor {
        Some(c) => first + "&cursor="@ + c,
        None => first,
    }
}

/// The path of one page of the series catalog.
pub fn series_path(cursor: Option<&str>) -> (path: String)
    ensures
        path@ == series_path_of(str_opt(cursor)),
{
    match cursor {
        Some(c) => {
            let mut path = "/series?cursor=".to_owned();
            path.append(c);
            path
        },
        None => "/series".to_owned(),
    }
}

/// The path of one page of the events of a series.
pub fn events_path(series_ticker: &str, cursor: Option<&str>) -> (path: String)
    ensures
        path@ == events_path_of(series_ticker@, str_opt(cursor)),
{
    let mut path = "/events?series_ticker=".to_owned();
    path.append(series_ticker);
    path.append("&with_nested_markets=true&status=open");
    match cursor {
        Some(c) => {
            path.append("&cursor=");
            path.append(c);
        },
        None => {},
    }
    path
}

/// The path of the depth-5 order book of a market.
pub fn orderbook_path(ticker: &str) -> (path: String)
    ensures
        path@ == "/markets/"@ + ticker@ + "/orderbook?depth=5"@,
{
    let mut path = "/markets/".to_owned();
    path.append(ticker);
    path.append("/orderbook?depth=5");
    path
}

/// The path that cancels an order.
pub fn cancel_path(order_id: &str) -> (path: String)
    ensures
        path@ == "/portfolio/orders/"@ + order_id@,
{
    let mut path = "/portfolio/orders/".to_owned();
    path.append(order_id);
    path
}

// --- Failures ---

/// The message of a request that stayed rate limited: method, path, the
/// number of retries and the body of the last response.
pub fn rate_limited_message(method: Method, path: &str, body: &str) -> (msg: String)
    ensures
        msg@ == method.name_text() + " "@ + path@ + " rate limited after "@ + decimal_digits(
            method.retry_limit(),
        ) + " retries: "@ + body@,
{
    let mut msg = method.name().to_owned();
    msg.append(" ");
    msg.append(path);
    msg.append(" rate limited after ");
    push_decimal(&mut msg, method.max_retries() as u64);
    msg.append(" retries: ");
    msg.append(body);
    msg
}

/// The message of a request that the exchange refused: method, path, status
/// and the body of the response.
pub fn status_message(method: Method, path: &str, status: u16, body: &str) -> (msg: String)
    ensures
        msg@ == method.name_text() + " "@ + path@ + " returned "@ + decimal_digits(status as nat)
            + ": "@ + body@,
{
    let mut msg = method.name().to_owned();
    msg.append(" ");
    msg.append(path);
    msg.append(" returned ");
    push_decimal(&mut msg, status as u64);
    msg.append(": ");
    msg.append(body);
    msg
}

// --- Pagination ---

/// The cursor of the next page: the one that the response gave, unless it
/// is absent or empty, which ends the listing.
pub open spec fn next_cursor_of(cursor: Option<Seq<char>>) -> Option<Seq<char>> {
    match cursor {
        Some(c) => if c.len() > 0 {
            Some(c)
        } else {
            None
        },
        None => None,
    }
}

/// The cursor of the next page, if the listing goes on.
pub fn next_cursor(cursor: Option<String>) -> (next: Option<String>)
    ensures
        text_opt(next) == next_cursor_of(
            text_opt(cursor),
        ),
{
    match cursor {
        Some(c) => if c.as_str().is_empty() {
            None
        } else {
            Some(c)
        },
        None => None,
    }
}

/// Adds one page of the series catalog to what was listed so far and gives
/// the cursor of the next page, if the listing goes on.
pub fn absorb_series_page(all: &mut Vec<Series>, page: SeriesResponse) -> (next: Option<String>)
    ensures
        final(all)@ == old(all)@ + page.series@,
        text_opt(next) == next_cursor_of(
            text_opt(page.cursor),
        ),
{
    let mut page = page;
    all.append(&mut page.series);
    next_cursor(page.cursor)
}

/// Adds one page of events to what was listed so far and gives the cursor
/// of the next page, if the listing goes on.
pub fn absorb_events_page(all: &mut Vec<Event>, page: EventsResponse) -> (next: Option<String>)
    ensures
        final(all)@ == old(all)@ + page.events@,
        text_opt(next) == next_cursor_of(
            text_opt(page.cursor),
        ),
{
    let mut page = page;
    all.append(&mut page.events);
    next_cursor(page.cursor)
}

} // verus!
