//! Circuit breakers on open arbitrages, daily loss and daily orders, with
//! the day rollover that is observed on every check.

use crate::clock::UtcStamp;
use crate::executor::Outcome;
use vstd::prelude::*;

verus! {

/// The most arbitrages that may be open at once.
pub const MAX_OPEN_ARBS: u32 = 5;

/// The daily loss, in cents, at which trading halts.
pub const MAX_DAILY_LOSS_CENTS: i64 = 500;

/// The most orders that may be placed in one day.
pub const MAX_DAILY_ORDERS: u32 = 50;

/// A calendar date in UTC.
#[derive(Debug, Clone, Copy, PartialEq, Eq, Structural)]
pub struct UtcDate {
    pub year: i32,
    pub month: u32,
    pub day: u32,
}

impl UtcDate {
    /// A month of 1 to 12 and a day of the month of 1 to 31.
    pub open spec fn wf(self) -> bool {
        1 <= self.month <= 12 && 1 <= self.day <= 31
    }
}

/// The counters that the circuit breakers watch.
#[derive(Debug, Clone, Copy, PartialEq, Eq, Structural)]
pub struct RiskLimits {
    /// Arbitrages opened in this session; never decremented.
    pub open_arbs: u32,
    pub daily_pnl_cents: i64,
    pub daily_orders: u32,
    pub today: UtcDate,
}

/// The counters of a day that has ended.
#[derive(Debug, Clone, Copy, PartialEq, Eq, Structural)]
pub struct DayClose {
    pub day: UtcDate,
    pub pnl_cents: i64,
    pub orders: u32,
}

/// The breaker that blocks an execution.
#[derive(Debug, Clone, Copy, PartialEq, Eq, Structural)]
pub enum RiskBlock {
    MaxOpenArbs,
    MaxDailyLoss,
    MaxDailyOrders,
}

/// What an execution changes in the counters.
#[derive(Debug, Clone, Copy, PartialEq, Eq, Structural)]
pub struct RiskDelta {
    /// Whether an arbitrage was opened.
    pub opened: bool,
    /// The change of the daily profit and loss, in cents.
    pub pnl_cents: i64,
    /// The number of orders that the exchange accepted.
    pub orders: usize,
}

impl RiskBlock {
    /// The name of the breaker.
    pub open spec fn reason_text(self) -> Seq<char> {
        match self {
            RiskBlock::MaxOpenArbs => "MAX_OPEN_ARBS"@,
            RiskBlock::MaxDailyLoss => "MAX_DAILY_LOSS"@,
            RiskBlock::MaxDailyOrders => "MAX_DAILY_ORDERS"@,
        }
    }

    /// The name of the breaker, as alerts carry it.
    pub fn reason(&self) -> (name: &'static str)
        ensures
            name@ == self.reason_text(),
    {
        match self {
            RiskBlock::MaxOpenArbs => "MAX_OPEN_ARBS",
            RiskBlock::MaxDailyLoss => "MAX_DAILY_LOSS",
            RiskBlock::MaxDailyOrders => "MAX_DAILY_ORDERS",
        }
    }
}

impl RiskLimits {
    /// The counters after `now` has been observed: on a new date the daily
    /// profit and loss and the daily orders start again at zero; the open
    /// arbitrages stay, since one may remain open across midnight.
    pub open spec fn rolled(self, now: UtcDate) -> RiskLimits {
        if now != self.today {
            RiskLimits { open_arbs: self.open_arbs, daily_pnl_cents: 0, daily_orders: 0, today: now }
        } else {
            self
        }
    }

    /// The first breaker that blocks, in the order open arbitrages, daily
    /// loss, daily orders.
    pub open spec fn blocked_by(self) -> Option<RiskBlock> {
        if self.open_arbs >= MAX_OPEN_ARBS {
            Some(RiskBlock::MaxOpenArbs)
        } else if self.daily_pnl_cents <= -MAX_DAILY_LOSS_CENTS {
            Some(RiskBlock::MaxDailyLoss)
        } else if self.daily_orders >= MAX_DAILY_ORDERS {
            Some(RiskBlock::MaxDailyOrders)
        } else {
            None
        }
    }

    /// The counters after an execution, if each of them still fits its
    /// integer type.
    pub open spec fn after(self, delta: RiskDelta) -> Option<RiskLimits> {
        let open_arbs = self.open_arbs + if delta.opened {
            1int
        } else {
            0int
        };
        let pnl = self.daily_pnl_cents + delta.pnl_cents;
        let orders = self.daily_orders + delta.orders;
        if open_arbs <= u32::MAX && i64::MIN <= pnl <= i64::MAX && orders <= u32::MAX {
            Some(
                RiskLimits {
                    open_arbs: open_arbs as u32,
                    daily_pnl_cents: pnl as i64,
                    daily_orders: orders as u32,
                    today: self.today,
                },
            )
        } else {
            None
        }
    }

    /// Fresh counters on the date `today`.
    pub fn starting(today: UtcDate) -> (limits: RiskLimits)
        ensures
            limits == (RiskLimits { open_arbs: 0, daily_pnl_cents: 0, daily_orders: 0, today }),
    {
        RiskLimits { open_arbs: 0, daily_pnl_cents: 0, daily_orders: 0, today }
    }

    /// Fresh counters on the current UTC date: every counter is zero, and
    /// the date is a calendar date that the clock can read, which is none
    /// before 1970.
    pub fn new() -> (limits: RiskLimits)
        ensures
            limits.open_arbs == 0,
            limits.daily_pnl_cents == 0,
            limits.daily_orders == 0,
            limits.today.wf(),
            limits.today.year >= 1970,
    {
        RiskLimits::starting(UtcStamp::now().date())
    }

    /// Observes the date `now`. On a new date the daily counters are reset
    /// and the closing counters of the day that ended are returned.
    pub fn roll_day(&mut self, now: UtcDate) -> (closed: Option<DayClose>)
        ensures
            *final(self) == old(self).rolled(now),
            now != old(self).today ==> final(self).daily_pnl_cents == 0,
            now != old(self).today ==> final(self).daily_orders == 0,
            now != old(self).today ==> final(self).today == now,
            final(self).open_arbs == old(self).open_arbs,
            closed == (if now != old(self).today {
                Some(
                    DayClose {
                        day: old(self).today,
                        pnl_cents: old(self).daily_pnl_cents,
                        orders: old(self).daily_orders,
                    },
                )
            } else {
                None
            }),
    {
        if now != self.today {
            let closed = DayClose {
                day: self.today,
                pnl_cents: self.daily_pnl_cents,
                orders: self.daily_orders,
            };
            self.daily_pnl_cents = 0;
            self.daily_orders = 0;
            self.today = now;
            Some(closed)
        } else {
            None
        }
    }

    /// Resets the daily counters if the UTC date has changed since the last
    /// observation.
    pub fn maybe_reset_day(&mut self) -> (closed: Option<DayClose>)
        ensures
            exists|now: UtcDate| *final(self) == old(self).rolled(now),
            final(self).open_arbs == old(self).open_arbs,
            closed is Some <==> final(self).today != old(self).today,
    {
        let now = UtcStamp::now().date();
        self.roll_day(now)
    }

    /// Whether a breaker blocks the next execution on the date `now`, after
    /// the day rollover. `None` means clear.
    pub fn check_on(&mut self, now: UtcDate) -> (block: Option<RiskBlock>)
        ensures
            *final(self) == old(self).rolled(now),
            block == old(self).rolled(now).blocked_by(),
    {
        let _ = self.roll_day(now);
        if self.open_arbs >= MAX_OPEN_ARBS {
            return Some(RiskBlock::MaxOpenArbs);
        }
        if self.daily_pnl_cents <= -MAX_DAILY_LOSS_CENTS {
            return Some(RiskBlock::MaxDailyLoss);
        }
        if self.daily_orders >= MAX_DAILY_ORDERS {
            return Some(RiskBlock::MaxDailyOrders);
        }
        None
    }

    /// Whether a breaker blocks the next execution today. `None` means
    /// clear.
    pub fn check(&mut self) -> (block: Option<RiskBlock>)
        ensures
            exists|now: UtcDate|
                *final(self) == old(self).rolled(now) && block == old(self).rolled(
                    now,
                ).blocked_by(),
            block == final(self).blocked_by(),
    {
        let now = UtcStamp::now().date();
        self.check_on(now)
    }

    /// Books an execution: the accepted orders count against the daily
    /// orders, a complete fill opens an arbitrage, and the profit or the
    /// worst-case loss moves the daily profit and loss. When a counter would
    /// leave its integer type nothing is booked and `false` is returned.
    pub fn book(&mut self, delta: RiskDelta) -> (booked: bool)
        ensures
            booked == old(self).after(delta).is_some(),
            *final(self) == (match old(self).after(delta) {
                Some(next) => next,
                None => *old(self),
            }),
    {
        let open_arbs = if delta.opened {
            match self.open_arbs.checked_add(1) {
                Some(n) => n,
                None => { return false; },
            }
        } else {
            self.open_arbs
        };
        let pnl = match self.daily_pnl_cents.checked_add(delta.pnl_cents) {
            Some(n) => n,
            None => { return false; },
        };
        if delta.orders > u32::MAX as usize {
            return false;
        }
        let orders = match self.daily_orders.checked_add(delta.orders as u32) {
            Some(n) => n,
            None => { return false; },
        };
        self.open_arbs = open_arbs;
        self.daily_pnl_cents = pnl;
        self.daily_orders = orders;
        true
    }
}

/// The change of the counters that an outcome calls for: a complete fill
/// opens an arbitrage and earns the expected net profit, a total failure
/// changes nothing, and a mixed outcome costs the worst-case loss of the
/// filled legs.
pub open spec fn delta_of(outcome: Outcome, expected_net: int, worst_loss: int, orders: nat) -> (
    bool,
    int,
    nat,
) {
    match outcome {
        Outcome::FullyFilled => (true, expected_net, orders),
        Outcome::TotalFailure => (false, 0int, orders),
        Outcome::Mixed => (false, -worst_loss, orders),
    }
}

} // verus!
