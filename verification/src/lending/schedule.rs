//! When the next payment of a loan is due.
use vstd::prelude::*;

verus! {

/// One transaction pays at most this many scheduled payments.
pub const LOAN_MAXIMUM_PAYMENTS_PER_TRANSACTION: u32 = 100;

/// Where a loan stands in its schedule.
#[derive(Clone, Copy, Debug, PartialEq, Eq, Structural)]
pub struct LoanSchedule {
    pub payments_remaining: u32,
    pub previous_due_date: u32,
    pub next_due_date: u32,
    pub payment_interval: u32,
}

pub open spec fn at_most(value: int, limit: int) -> int {
    if value < limit {
        value
    } else {
        limit
    }
}

/// How many scheduled payments are done with.
pub open spec fn spec_periods_done(remaining: u32, periods_paid: u32, full: bool) -> u32 {
    if full {
        remaining
    } else {
        at_most(
            at_most(periods_paid as int, remaining as int),
            LOAN_MAXIMUM_PAYMENTS_PER_TRANSACTION as int,
        ) as u32
    }
}

/// A date so many intervals later, as far as dates go.
pub open spec fn later(date: u32, interval: u32, periods: int) -> u32 {
    at_most(date + at_most(interval * periods, u32::MAX as int), u32::MAX as int) as u32
}

fn date_after(date: u32, interval: u32, periods: u32) -> (r: u32)
    ensures
        r == later(date, interval, periods as int),
{
    proof {
        assert(0 <= interval * periods <= 0xffff_ffff * 0xffff_ffff) by (nonlinear_arith)
            requires
                0 <= interval <= 0xffff_ffff,
                0 <= periods <= 0xffff_ffff,
        ;
    }
    let span: u64 = interval as u64 * periods as u64;
    let span: u32 = if span < u32::MAX as u64 {
        span as u32
    } else {
        u32::MAX
    };
    date.saturating_add(span)
}

impl LoanSchedule {
    /// The schedule after a payment that covers so many scheduled ones. The last of them ends it.
    pub open spec fn paid(self, periods_paid: u32, full: bool) -> LoanSchedule {
        let done = spec_periods_done(self.payments_remaining, periods_paid, full);
        let left = (self.payments_remaining - done) as u32;
        if left == 0 {
            LoanSchedule {
                payments_remaining: 0,
                previous_due_date: self.next_due_date,
                next_due_date: 0,
                ..self
            }
        } else if done > 0 {
            LoanSchedule {
                payments_remaining: left,
                previous_due_date: later(self.next_due_date, self.payment_interval, done - 1),
                next_due_date: later(self.next_due_date, self.payment_interval, done as int),
                ..self
            }
        } else {
            self
        }
    }

    /// Moves the schedule on by a payment.
    pub fn advance(&mut self, periods_paid: u32, full: bool)
        ensures
            *final(self) == old(self).paid(periods_paid, full),
    {
        let remaining: u32 = self.payments_remaining;
        let done: u32 = if full {
            remaining
        } else {
            let paid: u32 = if periods_paid < remaining {
                periods_paid
            } else {
                remaining
            };
            if paid < LOAN_MAXIMUM_PAYMENTS_PER_TRANSACTION {
                paid
            } else {
                LOAN_MAXIMUM_PAYMENTS_PER_TRANSACTION
            }
        };
        let left: u32 = remaining.saturating_sub(done);
        self.payments_remaining = left;
        if left == 0 {
            self.previous_due_date = self.next_due_date;
            self.next_due_date = 0;
        } else if done > 0 {
            let next_due: u32 = self.next_due_date;
            self.previous_due_date = date_after(next_due, self.payment_interval, done - 1);
            self.next_due_date = date_after(next_due, self.payment_interval, done);
        }
    }
}

/// A payment never adds scheduled payments, and one in full leaves none.
pub proof fn schedule_only_shrinks(schedule: LoanSchedule, periods_paid: u32, full: bool)
    ensures
        schedule.paid(periods_paid, full).payments_remaining <= schedule.payments_remaining,
        full ==> schedule.paid(periods_paid, full).payments_remaining == 0,
        schedule.paid(periods_paid, full).payments_remaining == 0 ==> schedule.paid(
            periods_paid,
            full,
        ).next_due_date == 0,
{
}

/// While payments are left, the due dates never move back, and lie one interval apart as far as
/// dates go.
pub proof fn due_dates_move_on(schedule: LoanSchedule, periods_paid: u32)
    requires
        spec_periods_done(schedule.payments_remaining, periods_paid, false) > 0,
        schedule.paid(periods_paid, false).payments_remaining > 0,
    ensures
        ({
            let next = schedule.paid(periods_paid, false);
            &&& schedule.next_due_date <= next.previous_due_date <= next.next_due_date
            &&& next.next_due_date < u32::MAX ==> next.next_due_date == next.previous_due_date
                + schedule.payment_interval
        }),
{
    let done = spec_periods_done(schedule.payments_remaining, periods_paid, false);
    let interval = schedule.payment_interval;
    assert(interval * (done - 1) >= 0) by (nonlinear_arith)
        requires
            interval >= 0,
            done >= 1,
    ;
    assert(interval * done == interval * (done - 1) + interval) by (nonlinear_arith);
}

} // verus!
