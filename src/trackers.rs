use vstd::prelude::*;

use crate::error::ErrorCode;

verus! {

/// Cumulative amounts of one reward: what was funded, what was refunded, and what
/// has been accrued to stakers. Each of them only ever grows.
#[derive(Debug, Clone, Copy, PartialEq, Eq, Structural)]
pub struct FundsTracker {
    pub total_funded: u64,
    pub total_refunded: u64,
    pub total_accrued_to_stakers: u64,
}

/// Duration, end and lock of one reward, in seconds.
#[derive(Debug, Clone, Copy, PartialEq, Eq, Structural)]
pub struct TimeTracker {
    pub duration_sec: u64,
    pub reward_end_ts: u64,
    pub lock_end_ts: u64,
}

pub open spec fn min_int(a: int, b: int) -> int {
    if a <= b { a } else { b }
}

pub open spec fn max_int(a: int, b: int) -> int {
    if a >= b { a } else { b }
}

impl FundsTracker {
    /// No reward ever reports more refunded and accrued than was funded.
    pub open spec fn wf(&self) -> bool {
        self.total_refunded + self.total_accrued_to_stakers <= self.total_funded
    }

    /// What was funded and has neither been refunded nor accrued to stakers.
    pub open spec fn pending_spec(&self) -> int {
        self.total_funded - self.total_refunded - self.total_accrued_to_stakers
    }

    pub fn new() -> (r: FundsTracker)
        ensures
            r.total_funded == 0,
            r.total_refunded == 0,
            r.total_accrued_to_stakers == 0,
            r.wf(),
    {
        FundsTracker { total_funded: 0, total_refunded: 0, total_accrued_to_stakers: 0 }
    }

    pub fn pending_amount(&self) -> (r: Result<u64, ErrorCode>)
        ensures
            self.wf() <==> r.is_ok(),
            r matches Ok(p) ==> p == self.pending_spec(),
            r matches Err(e) ==> e == ErrorCode::BookkeepingInvariantViolated,
    {
        if self.total_refunded > self.total_funded {
            return Err(ErrorCode::BookkeepingInvariantViolated);
        }
        let rest = self.total_funded - self.total_refunded;
        if self.total_accrued_to_stakers > rest {
            return Err(ErrorCode::BookkeepingInvariantViolated);
        }
        Ok(rest - self.total_accrued_to_stakers)
    }

    /// Adds a deposit to the funded total.
    pub fn fund(&mut self, amount: u64) -> (r: Result<(), ErrorCode>)
        ensures
            r.is_ok() <==> old(self).total_funded + amount <= u64::MAX,
            r.is_ok() ==> *final(self) == (FundsTracker {
                total_funded: (old(self).total_funded + amount) as u64,
                ..*old(self)
            }),
            r.is_err() ==> r == Err::<(), ErrorCode>(ErrorCode::ArithmeticOverflow)
                && *final(self) == *old(self),
    {
        match self.total_funded.checked_add(amount) {
            Some(t) => {
                self.total_funded = t;
                Ok(())
            },
            None => Err(ErrorCode::ArithmeticOverflow),
        }
    }

    /// Records an amount handed back to the funder.
    pub fn refund(&mut self, amount: u64) -> (r: Result<(), ErrorCode>)
        ensures
            r.is_ok() <==> old(self).total_refunded + amount <= u64::MAX,
            r.is_ok() ==> *final(self) == (FundsTracker {
                total_refunded: (old(self).total_refunded + amount) as u64,
                ..*old(self)
            }),
            r.is_err() ==> r == Err::<(), ErrorCode>(ErrorCode::ArithmeticOverflow)
                && *final(self) == *old(self),
    {
        match self.total_refunded.checked_add(amount) {
            Some(t) => {
                self.total_refunded = t;
                Ok(())
            },
            None => Err(ErrorCode::ArithmeticOverflow),
        }
    }

    /// Records an amount accrued to stakers.
    pub fn accrue(&mut self, amount: u64) -> (r: Result<(), ErrorCode>)
        ensures
            r.is_ok() <==> old(self).total_accrued_to_stakers + amount <= u64::MAX,
            r.is_ok() ==> *final(self) == (FundsTracker {
                total_accrued_to_stakers: (old(self).total_accrued_to_stakers + amount) as u64,
                ..*old(self)
            }),
            r.is_err() ==> r == Err::<(), ErrorCode>(ErrorCode::ArithmeticOverflow)
                && *final(self) == *old(self),
    {
        match self.total_accrued_to_stakers.checked_add(amount) {
            Some(t) => {
                self.total_accrued_to_stakers = t;
                Ok(())
            },
            None => Err(ErrorCode::ArithmeticOverflow),
        }
    }
}

impl TimeTracker {
    pub open spec fn remaining_spec(&self, now_ts: u64) -> int {
        if now_ts < self.reward_end_ts { self.reward_end_ts - now_ts } else { 0 }
    }

    /// The time at which the current schedule began.
    pub open spec fn start_spec(&self) -> int {
        max_int(self.reward_end_ts - self.duration_sec, 0)
    }

    pub fn new() -> (r: TimeTracker)
        ensures
            r.duration_sec == 0,
            r.reward_end_ts == 0,
            r.lock_end_ts == 0,
    {
        TimeTracker { duration_sec: 0, reward_end_ts: 0, lock_end_ts: 0 }
    }

    /// Time until the reward ends; zero once it has ended.
    pub fn remaining_duration(&self, now_ts: u64) -> (r: u64)
        ensures
            r == self.remaining_spec(now_ts),
    {
        if now_ts < self.reward_end_ts {
            self.reward_end_ts - now_ts
        } else {
            0
        }
    }

    /// Time of the schedule that has already gone by.
    pub fn passed_duration(&self, now_ts: u64) -> (r: Result<u64, ErrorCode>)
        ensures
            r.is_ok() <==> self.remaining_spec(now_ts) <= self.duration_sec,
            r matches Ok(p) ==> p == self.duration_sec - self.remaining_spec(now_ts),
            r matches Err(e) ==> e == ErrorCode::ArithmeticUnderflow,
    {
        let remaining = self.remaining_duration(now_ts);
        if remaining > self.duration_sec {
            Err(ErrorCode::ArithmeticUnderflow)
        } else {
            Ok(self.duration_sec - remaining)
        }
    }

    /// Ends the schedule now, shortening its duration by the time that was left.
    pub fn end_reward(&mut self, now_ts: u64) -> (r: Result<(), ErrorCode>)
        ensures
            r.is_ok() <==> old(self).remaining_spec(now_ts) <= old(self).duration_sec,
            r.is_ok() ==> *final(self) == (TimeTracker {
                duration_sec: (old(self).duration_sec - old(self).remaining_spec(now_ts)) as u64,
                reward_end_ts: now_ts,
                lock_end_ts: old(self).lock_end_ts,
            }),
            r.is_err() ==> r == Err::<(), ErrorCode>(ErrorCode::ArithmeticUnderflow)
                && *final(self) == *old(self),
    {
        let remaining = self.remaining_duration(now_ts);
        if remaining > self.duration_sec {
            return Err(ErrorCode::ArithmeticUnderflow);
        }
        self.duration_sec = self.duration_sec - remaining;
        self.reward_end_ts = now_ts;
        Ok(())
    }

    /// Starts a new schedule of `duration_sec` seconds at `now_ts`.
    pub fn extend_or_reset(&mut self, now_ts: u64, duration_sec: u64) -> (r: Result<(), ErrorCode>)
        ensures
            r.is_ok() <==> now_ts + duration_sec <= u64::MAX,
            r.is_ok() ==> *final(self) == (TimeTracker {
                duration_sec,
                reward_end_ts: (now_ts + duration_sec) as u64,
                lock_end_ts: old(self).lock_end_ts,
            }),
            r.is_err() ==> r == Err::<(), ErrorCode>(ErrorCode::ArithmeticOverflow)
                && *final(self) == *old(self),
    {
        match now_ts.checked_add(duration_sec) {
            Some(end) => {
                self.reward_end_ts = end;
                self.duration_sec = duration_sec;
                Ok(())
            },
            None => Err(ErrorCode::ArithmeticOverflow),
        }
    }

    /// The latest time up to which the reward accrues, as of `now_ts`.
    pub fn upper_bound(&self, now_ts: u64) -> (r: u64)
        ensures
            r == min_int(self.reward_end_ts as int, now_ts as int),
    {
        if self.reward_end_ts < now_ts {
            self.reward_end_ts
        } else {
            now_ts
        }
    }
}

} // verus!
