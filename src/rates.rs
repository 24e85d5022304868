use vstd::prelude::*;
use vstd::arithmetic::div_mod::*;
use vstd::arithmetic::mul::*;

use crate::error::ErrorCode;
use crate::farmer::FarmerRewardTracker;
use crate::trackers::{max_int, min_int, FundsTracker, TimeTracker};

verus! {

/// State of a reward paid pro rata: whatever is pending is emitted at a constant
/// rate over the rest of the schedule and split evenly over the gems staked.
#[derive(Debug, Clone, Copy, PartialEq, Eq, Structural)]
pub struct VariableRateReward {
    /// Reward emitted per staked gem since the reward was created.
    pub accrued_reward_per_gem: u64,
    /// The time up to which emission has been accounted for.
    pub reward_last_updated_ts: u64,
}

/// State of a reward that pays each participating gem at a rate fixed when the
/// reward was funded.
#[derive(Debug, Clone, Copy, PartialEq, Eq, Structural)]
pub struct FixedRateReward {
    /// Gems currently sharing in the reward.
    pub gems_participating: u64,
    /// Gems whose holders left after receiving their whole reward.
    pub gems_made_whole: u64,
    /// Amount the current schedule pays over its whole duration.
    pub committed_reward: u64,
    /// Number of gems the current schedule was sized for.
    pub committed_gems: u64,
}

/// What a pro-rata reward emits between `last` and `now`: the pending amount,
/// spread evenly over the time from `last` to the end of the schedule.
pub open spec fn emitted_spec(pending: int, last: int, end: int, now: int) -> int {
    let upper = min_int(end, now);
    if upper > last && end > last {
        pending * (upper - last) / (end - last)
    } else {
        0
    }
}

/// Share of `emitted` that each of `gems` staked gems receives; nothing when no gem is staked.
pub open spec fn per_gem_spec(emitted: int, gems: int) -> int {
    if gems > 0 {
        emitted / gems
    } else {
        0
    }
}

/// Reward per gem that a pro-rata reward adds when updated at `now_ts`.
pub open spec fn variable_delta_spec(
    reward: VariableRateReward,
    funds: FundsTracker,
    times: TimeTracker,
    now_ts: u64,
    farm_gems_staked: u64,
) -> int {
    per_gem_spec(
        emitted_spec(
            funds.pending_spec(),
            reward.reward_last_updated_ts as int,
            times.reward_end_ts as int,
            now_ts as int,
        ),
        farm_gems_staked as int,
    )
}

/// What a fixed-rate schedule owes `gems` gems for `dt` seconds.
pub open spec fn fixed_owed_spec(
    committed: int,
    committed_gems: int,
    duration: int,
    dt: int,
    gems: int,
) -> int {
    if duration > 0 && committed_gems > 0 {
        committed * dt * gems / (duration * committed_gems)
    } else {
        0
    }
}

/// Whether the product in `fixed_owed_spec` fits the 128-bit intermediate.
pub open spec fn fixed_owed_fits(committed: int, dt: int, gems: int) -> bool {
    committed * dt * gems <= u128::MAX
}

proof fn lemma_scaled_le(p: int, e: int, d: int)
    requires
        0 <= p,
        0 <= e <= d,
        0 < d,
    ensures
        0 <= p * e / d <= p,
{
    lemma_mul_inequality(e, d, p);
    lemma_mul_is_commutative(e, p);
    lemma_mul_is_commutative(d, p);
    lemma_div_is_ordered(p * e, d * p, d);
    lemma_div_multiples_vanish(p, d);
    lemma_mul_nonnegative(p, e);
    lemma_div_pos_is_pos(p * e, d);
}

proof fn lemma_share_le(e: int, g: int)
    requires
        0 <= e,
        0 < g,
    ensures
        0 <= (e / g) * g <= e,
        0 <= e / g <= e,
{
    lemma_fundamental_div_mod(e, g);
    lemma_mod_pos_bound(e, g);
    lemma_div_pos_is_pos(e, g);
    lemma_mul_nonnegative(e / g, g);
    lemma_mul_is_commutative(g, e / g);
    lemma_mul_inequality(1, g, e / g);
}

/// Pending amount emitted between `last` and `now`; never more than `pending`.
fn emitted_amount(pending: u64, last: u64, end: u64, now: u64) -> (r: u64)
    ensures
        r == emitted_spec(pending as int, last as int, end as int, now as int),
        r <= pending,
{
    let upper = if end < now {
        end
    } else {
        now
    };
    if upper > last && end > last {
        let dt = (upper - last) as u128;
        let span = (end - last) as u128;
        proof {
            lemma_mul_inequality(pending as int, u64::MAX as int, dt as int);
            lemma_mul_inequality(dt as int, u64::MAX as int, u64::MAX as int);
            lemma_mul_is_commutative(pending as int, dt as int);
            lemma_scaled_le(pending as int, dt as int, span as int);
        }
        let num: u128 = (pending as u128) * dt;
        (num / span) as u64
    } else {
        0
    }
}

impl VariableRateReward {
    pub fn new() -> (r: VariableRateReward)
        ensures
            r.accrued_reward_per_gem == 0,
            r.reward_last_updated_ts == 0,
    {
        VariableRateReward { accrued_reward_per_gem: 0, reward_last_updated_ts: 0 }
    }

    /// Accounts for what was emitted since the last update, split over the
    /// `farm_gems_staked` gems staked meanwhile. With no gem staked nothing is
    /// accrued: the emission stays pending and is spread over the rest of the
    /// schedule.
    pub fn update_accrued_reward(
        &mut self,
        now_ts: u64,
        funds: &mut FundsTracker,
        times: &TimeTracker,
        farm_gems_staked: u64,
    ) -> (r: Result<(), ErrorCode>)
        requires
            old(funds).wf(),
        ensures
            final(funds).wf(),
            r.is_ok() <==> old(self).accrued_reward_per_gem + variable_delta_spec(
                *old(self),
                *old(funds),
                *times,
                now_ts,
                farm_gems_staked,
            ) <= u64::MAX,
            r.is_ok() ==> {
                let d = variable_delta_spec(*old(self), *old(funds), *times, now_ts, farm_gems_staked);
                &&& final(self).accrued_reward_per_gem == old(self).accrued_reward_per_gem + d
                &&& final(self).reward_last_updated_ts == max_int(
                    old(self).reward_last_updated_ts as int,
                    min_int(times.reward_end_ts as int, now_ts as int),
                )
                &&& *final(funds) == (FundsTracker {
                    total_accrued_to_stakers: (old(funds).total_accrued_to_stakers + d
                        * farm_gems_staked) as u64,
                    ..*old(funds)
                })
            },
            r.is_err() ==> r == Err::<(), ErrorCode>(ErrorCode::ArithmeticOverflow)
                && *final(self) == *old(self) && *final(funds) == *old(funds),
    {
        let pending = match funds.pending_amount() {
            Ok(p) => p,
            Err(e) => return Err(e),
        };
        let emitted = emitted_amount(
            pending,
            self.reward_last_updated_ts,
            times.reward_end_ts,
            now_ts,
        );
        let delta = if farm_gems_staked > 0 {
            emitted / farm_gems_staked
        } else {
            0
        };
        let per_gem = match self.accrued_reward_per_gem.checked_add(delta) {
            Some(v) => v,
            None => return Err(ErrorCode::ArithmeticOverflow),
        };
        proof {
            if farm_gems_staked > 0 {
                lemma_share_le(emitted as int, farm_gems_staked as int);
            }
        }
        let accrued = delta * farm_gems_staked;
        match funds.accrue(accrued) {
            Ok(()) => {},
            Err(e) => return Err(e),
        }
        self.accrued_reward_per_gem = per_gem;
        let upper = times.upper_bound(now_ts);
        if upper > self.reward_last_updated_ts {
            self.reward_last_updated_ts = upper;
        }
        Ok(())
    }

    /// Credits the farmer with the reward per gem added since their last update,
    /// times the gems they hold.
    pub fn update_farmer(&self, farmer_gems_staked: u64, tracker: &mut FarmerRewardTracker) -> (r:
        Result<(), ErrorCode>)
        ensures
            r.is_ok() <==> old(tracker).last_recorded_accrued_reward_per_gem
                <= self.accrued_reward_per_gem && old(tracker).accrued_reward + (
            self.accrued_reward_per_gem - old(tracker).last_recorded_accrued_reward_per_gem)
                * farmer_gems_staked <= u64::MAX,
            r.is_ok() ==> *final(tracker) == (FarmerRewardTracker {
                accrued_reward: (old(tracker).accrued_reward + (self.accrued_reward_per_gem
                    - old(tracker).last_recorded_accrued_reward_per_gem) * farmer_gems_staked) as u64,
                last_recorded_accrued_reward_per_gem: self.accrued_reward_per_gem,
                ..*old(tracker)
            }),
            r matches Err(e) ==> *final(tracker) == *old(tracker) && (e
                == ErrorCode::ArithmeticUnderflow <==> old(tracker).last_recorded_accrued_reward_per_gem
                > self.accrued_reward_per_gem) && (e == ErrorCode::ArithmeticUnderflow || e
                == ErrorCode::ArithmeticOverflow),
    {
        if tracker.last_recorded_accrued_reward_per_gem > self.accrued_reward_per_gem {
            return Err(ErrorCode::ArithmeticUnderflow);
        }
        let delta = self.accrued_reward_per_gem - tracker.last_recorded_accrued_reward_per_gem;
        let earned = match delta.checked_mul(farmer_gems_staked) {
            Some(v) => v,
            None => {
                proof {
                    lemma_mul_nonnegative(delta as int, farmer_gems_staked as int);
                }
                return Err(ErrorCode::ArithmeticOverflow);
            },
        };
        let total = match tracker.accrued_reward.checked_add(earned) {
            Some(v) => v,
            None => return Err(ErrorCode::ArithmeticOverflow),
        };
        tracker.accrued_reward = total;
        tracker.last_recorded_accrued_reward_per_gem = self.accrued_reward_per_gem;
        Ok(())
    }

    /// Adds `amount` to the reward and starts a schedule of `duration_sec` seconds
    /// at `now_ts` that emits everything pending. The reward must have been updated
    /// at `now_ts` beforehand, so that the new rate applies to no earlier time.
    pub fn fund_reward(
        &mut self,
        now_ts: u64,
        times: &mut TimeTracker,
        funds: &mut FundsTracker,
        amount: u64,
        duration_sec: u64,
    ) -> (r: Result<(), ErrorCode>)
        requires
            old(funds).wf(),
        ensures
            final(funds).wf(),
            r.is_ok() <==> old(funds).total_funded + amount <= u64::MAX && now_ts + duration_sec
                <= u64::MAX,
            r.is_ok() ==> {
                &&& *final(funds) == (FundsTracker {
                    total_funded: (old(funds).total_funded + amount) as u64,
                    ..*old(funds)
                })
                &&& *final(times) == (TimeTracker {
                    duration_sec,
                    reward_end_ts: (now_ts + duration_sec) as u64,
                    lock_end_ts: old(times).lock_end_ts,
                })
                &&& *final(self) == (VariableRateReward {
                    reward_last_updated_ts: now_ts,
                    ..*old(self)
                })
            },
            r.is_err() ==> r == Err::<(), ErrorCode>(ErrorCode::ArithmeticOverflow)
                && *final(self) == *old(self) && *final(funds) == *old(funds) && *final(times)
                == *old(times),
    {
        if amount > u64::MAX - funds.total_funded || duration_sec > u64::MAX - now_ts {
            return Err(ErrorCode::ArithmeticOverflow);
        }
        match funds.fund(amount) {
            Ok(()) => {},
            Err(e) => return Err(e),
        }
        match times.extend_or_reset(now_ts, duration_sec) {
            Ok(()) => {},
            Err(e) => return Err(e),
        }
        self.reward_last_updated_ts = now_ts;
        Ok(())
    }

    /// Refunds everything pending and ends the schedule at `now_ts`; returns the
    /// refunded amount. The reward must have been updated at `now_ts` beforehand.
    pub fn cancel_reward(&self, now_ts: u64, times: &mut TimeTracker, funds: &mut FundsTracker) -> (r:
        Result<u64, ErrorCode>)
        requires
            old(funds).wf(),
        ensures
            final(funds).wf(),
            r.is_ok() <==> old(times).remaining_spec(now_ts) <= old(times).duration_sec,
            r matches Ok(x) ==> {
                &&& x == old(funds).pending_spec()
                &&& *final(funds) == (FundsTracker {
                    total_refunded: (old(funds).total_refunded + x) as u64,
                    ..*old(funds)
                })
                &&& final(funds).pending_spec() == 0
                &&& *final(times) == (TimeTracker {
                    duration_sec: (old(times).duration_sec - old(times).remaining_spec(now_ts)) as u64,
                    reward_end_ts: now_ts,
                    lock_end_ts: old(times).lock_end_ts,
                })
            },
            r.is_err() ==> r == Err::<u64, ErrorCode>(ErrorCode::ArithmeticUnderflow)
                && *final(funds) == *old(funds) && *final(times) == *old(times),
    {
        let pending = match funds.pending_amount() {
            Ok(p) => p,
            Err(e) => return Err(e),
        };
        match times.end_reward(now_ts) {
            Ok(()) => {},
            Err(e) => return Err(e),
        }
        match funds.refund(pending) {
            Ok(()) => {},
            Err(e) => return Err(e),
        }
        Ok(pending)
    }
}

/// Owed amount of a fixed-rate schedule, or `None` where the product overflows.
fn fixed_owed(committed: u64, committed_gems: u64, duration: u64, dt: u64, gems: u64) -> (r: Option<
    u128,
>)
    ensures
        r.is_some() <==> fixed_owed_fits(committed as int, dt as int, gems as int),
        r matches Some(v) ==> v == fixed_owed_spec(
            committed as int,
            committed_gems as int,
            duration as int,
            dt as int,
            gems as int,
        ),
{
    proof {
        lemma_mul_inequality(committed as int, u64::MAX as int, dt as int);
        lemma_mul_inequality(dt as int, u64::MAX as int, u64::MAX as int);
        lemma_mul_is_commutative(committed as int, dt as int);
        lemma_mul_nonnegative(committed as int, dt as int);
        lemma_mul_inequality(duration as int, u64::MAX as int, committed_gems as int);
        lemma_mul_inequality(committed_gems as int, u64::MAX as int, u64::MAX as int);
        lemma_mul_is_commutative(duration as int, committed_gems as int);
        lemma_mul_nonnegative(committed as int * dt as int, gems as int);
    }
    let base: u128 = (committed as u128) * (dt as u128);
    let num = match base.checked_mul(gems as u128) {
        Some(v) => v,
        None => return None,
    };
    if duration > 0 && committed_gems > 0 {
        proof {
            lemma_mul_strictly_positive(duration as int, committed_gems as int);
        }
        let den: u128 = (duration as u128) * (committed_gems as u128);
        Some(num / den)
    } else {
        Some(0)
    }
}

impl FixedRateReward {
    pub fn new() -> (r: FixedRateReward)
        ensures
            r.gems_participating == 0,
            r.gems_made_whole == 0,
            r.committed_reward == 0,
            r.committed_gems == 0,
    {
        FixedRateReward {
            gems_participating: 0,
            gems_made_whole: 0,
            committed_reward: 0,
            committed_gems: 0,
        }
    }

    /// Start of the window a farmer is credited for: the later of their last
    /// update and the start of the schedule.
    pub open spec fn window_from(tracker: FarmerRewardTracker, times: TimeTracker) -> int {
        max_int(tracker.fixed_last_updated_ts as int, times.start_spec())
    }

    /// What the schedule owes `gems` gems for the window of `tracker` up to `now_ts`.
    pub open spec fn owed_spec(
        &self,
        times: TimeTracker,
        tracker: FarmerRewardTracker,
        now_ts: u64,
        gems: u64,
    ) -> int {
        fixed_owed_spec(
            self.committed_reward as int,
            self.committed_gems as int,
            times.duration_sec as int,
            min_int(times.reward_end_ts as int, now_ts as int) - Self::window_from(tracker, times),
            gems as int,
        )
    }

    /// Credits the farmer with what the schedule owes their gems for the time since
    /// their last update, at most what is still pending. Once the farmer has been
    /// made whole this changes nothing.
    pub fn update_accrued_reward(
        &self,
        now_ts: u64,
        funds: &mut FundsTracker,
        times: &TimeTracker,
        farmer_gems_staked: u64,
        tracker: &mut FarmerRewardTracker,
    ) -> (r: Result<(), ErrorCode>)
        requires
            old(funds).wf(),
        ensures
            final(funds).wf(),
            old(tracker).is_whole ==> r.is_ok() && *final(tracker) == *old(tracker) && *final(funds)
                == *old(funds),
            ({
                let to = min_int(times.reward_end_ts as int, now_ts as int);
                let from = Self::window_from(*old(tracker), *times);
                !old(tracker).is_whole && to <= from ==> r.is_ok() && *final(tracker) == *old(tracker)
                    && *final(funds) == *old(funds)
            }),
            ({
                let to = min_int(times.reward_end_ts as int, now_ts as int);
                let from = Self::window_from(*old(tracker), *times);
                let owed = self.owed_spec(*times, *old(tracker), now_ts, farmer_gems_staked);
                let credit = min_int(owed, old(funds).pending_spec());
                !old(tracker).is_whole && to > from ==> {
                    &&& r.is_ok() <==> fixed_owed_fits(
                        self.committed_reward as int,
                        to - from,
                        farmer_gems_staked as int,
                    ) && old(tracker).accrued_reward + credit <= u64::MAX
                    &&& r.is_ok() ==> *final(tracker) == (FarmerRewardTracker {
                        accrued_reward: (old(tracker).accrued_reward + credit) as u64,
                        fixed_last_updated_ts: to as u64,
                        ..*old(tracker)
                    }) && *final(funds) == (FundsTracker {
                        total_accrued_to_stakers: (old(funds).total_accrued_to_stakers
                            + credit) as u64,
                        ..*old(funds)
                    })
                    &&& r.is_err() ==> r == Err::<(), ErrorCode>(ErrorCode::ArithmeticOverflow)
                        && *final(tracker) == *old(tracker) && *final(funds) == *old(funds)
                }
            }),
    {
        if tracker.is_whole {
            return Ok(());
        }
        let to = times.upper_bound(now_ts);
        let start = if times.reward_end_ts > times.duration_sec {
            times.reward_end_ts - times.duration_sec
        } else {
            0
        };
        let from = if tracker.fixed_last_updated_ts > start {
            tracker.fixed_last_updated_ts
        } else {
            start
        };
        if to <= from {
            return Ok(());
        }
        let owed = match fixed_owed(
            self.committed_reward,
            self.committed_gems,
            times.duration_sec,
            to - from,
            farmer_gems_staked,
        ) {
            Some(v) => v,
            None => return Err(ErrorCode::ArithmeticOverflow),
        };
        let pending = match funds.pending_amount() {
            Ok(p) => p,
            Err(e) => return Err(e),
        };
        let credit: u64 = if owed < pending as u128 {
            owed as u64
        } else {
            pending
        };
        let total = match tracker.accrued_reward.checked_add(credit) {
            Some(v) => v,
            None => return Err(ErrorCode::ArithmeticOverflow),
        };
        match funds.accrue(credit) {
            Ok(()) => {},
            Err(e) => return Err(e),
        }
        tracker.accrued_reward = total;
        tracker.fixed_last_updated_ts = to;
        Ok(())
    }

    /// Adds `amount` to the reward and commits everything pending to a new schedule
    /// of `duration_sec` seconds at `now_ts`, sized for the gems participating now
    /// (for one gem when none is).
    pub fn fund_reward(
        &mut self,
        now_ts: u64,
        times: &mut TimeTracker,
        funds: &mut FundsTracker,
        amount: u64,
        duration_sec: u64,
    ) -> (r: Result<(), ErrorCode>)
        requires
            old(funds).wf(),
        ensures
            final(funds).wf(),
            r.is_ok() <==> old(funds).total_funded + amount <= u64::MAX && now_ts + duration_sec
                <= u64::MAX,
            r.is_ok() ==> {
                &&& *final(funds) == (FundsTracker {
                    total_funded: (old(funds).total_funded + amount) as u64,
                    ..*old(funds)
                })
                &&& *final(times) == (TimeTracker {
                    duration_sec,
                    reward_end_ts: (now_ts + duration_sec) as u64,
                    lock_end_ts: old(times).lock_end_ts,
                })
                &&& *final(self) == (FixedRateReward {
                    committed_reward: final(funds).pending_spec() as u64,
                    committed_gems: if old(self).gems_participating > 0 {
                        old(self).gems_participating
                    } else {
                        1
                    },
                    ..*old(self)
                })
            },
            r.is_err() ==> r == Err::<(), ErrorCode>(ErrorCode::ArithmeticOverflow)
                && *final(self) == *old(self) && *final(funds) == *old(funds) && *final(times)
                == *old(times),
    {
        if amount > u64::MAX - funds.total_funded || duration_sec > u64::MAX - now_ts {
            return Err(ErrorCode::ArithmeticOverflow);
        }
        match funds.fund(amount) {
            Ok(()) => {},
            Err(e) => return Err(e),
        }
        match times.extend_or_reset(now_ts, duration_sec) {
            Ok(()) => {},
            Err(e) => return Err(e),
        }
        let pending = match funds.pending_amount() {
            Ok(p) => p,
            Err(e) => return Err(e),
        };
        self.committed_reward = pending;
        self.committed_gems = if self.gems_participating > 0 {
            self.gems_participating
        } else {
            1
        };
        Ok(())
    }

    /// What stays reserved at `now_ts` for the gems still participating: what the
    /// schedule owes them for its remaining time, at most what is pending.
    pub open spec fn reserved_spec(&self, times: TimeTracker, funds: FundsTracker, now_ts: u64) -> int {
        min_int(
            fixed_owed_spec(
                self.committed_reward as int,
                self.committed_gems as int,
                times.duration_sec as int,
                times.remaining_spec(now_ts),
                self.gems_participating as int,
            ),
            funds.pending_spec(),
        )
    }

    /// Refunds the pending amount that is not reserved for the gems still
    /// participating, and returns it. The schedule goes on for those gems.
    pub fn cancel_reward(&self, now_ts: u64, times: &TimeTracker, funds: &mut FundsTracker) -> (r:
        Result<u64, ErrorCode>)
        requires
            old(funds).wf(),
        ensures
            final(funds).wf(),
            r.is_ok() <==> fixed_owed_fits(
                self.committed_reward as int,
                times.remaining_spec(now_ts),
                self.gems_participating as int,
            ),
            r matches Ok(x) ==> {
                &&& x == old(funds).pending_spec() - self.reserved_spec(*times, *old(funds), now_ts)
                &&& *final(funds) == (FundsTracker {
                    total_refunded: (old(funds).total_refunded + x) as u64,
                    ..*old(funds)
                })
            },
            r.is_err() ==> r == Err::<u64, ErrorCode>(ErrorCode::ArithmeticOverflow)
                && *final(funds) == *old(funds),
    {
        let pending = match funds.pending_amount() {
            Ok(p) => p,
            Err(e) => return Err(e),
        };
        let remaining = times.remaining_duration(now_ts);
        let owed = match fixed_owed(
            self.committed_reward,
            self.committed_gems,
            times.duration_sec,
            remaining,
            self.gems_participating,
        ) {
            Some(v) => v,
            None => return Err(ErrorCode::ArithmeticOverflow),
        };
        let reserved: u64 = if owed < pending as u128 {
            owed as u64
        } else {
            pending
        };
        let refund = pending - reserved;
        match funds.refund(refund) {
            Ok(()) => {},
            Err(e) => return Err(e),
        }
        Ok(refund)
    }
}

} // verus!
