use vstd::prelude::*;

use crate::error::ErrorCode;
use crate::farmer::FarmerRewardTracker;
use crate::pubkey::Pubkey;
use crate::rates::{
    fixed_owed_fits, variable_delta_spec, FixedRateReward, VariableRateReward,
};
use crate::trackers::{max_int, min_int, FundsTracker, TimeTracker};

verus! {

/// How a reward is paid out.
#[derive(Debug, Clone, Copy, PartialEq, Eq, Structural)]
pub enum RewardType {
    Variable,
    Fixed,
}

/// One of the farm's two rewards: its mint, its payout model, and its books.
#[derive(Debug, Clone, Copy)]
pub struct FarmReward {
    pub reward_mint: Pubkey,
    pub reward_pot: Pubkey,
    pub reward_type: RewardType,
    /// Only the state matching `reward_type` is used.
    pub fixed_rate: FixedRateReward,
    pub variable_rate: VariableRateReward,
    pub funds: FundsTracker,
    pub times: TimeTracker,
}

impl FarmReward {
    pub open spec fn wf(&self) -> bool {
        &&& self.funds.wf()
        &&& self.times.lock_end_ts <= self.times.reward_end_ts
    }

    /// The same reward with other books; mint, pot and type stay.
    pub open spec fn with_state(
        self,
        fixed_rate: FixedRateReward,
        variable_rate: VariableRateReward,
        funds: FundsTracker,
        times: TimeTracker,
    ) -> FarmReward {
        FarmReward { fixed_rate, variable_rate, funds, times, ..self }
    }

    pub open spec fn is_locked_spec(&self, now_ts: u64) -> bool {
        now_ts < self.times.lock_end_ts
    }

    /// Whether a pool-wide update at `now_ts` succeeds.
    pub open spec fn pool_update_ok(self, now_ts: u64, farm_gems: u64) -> bool {
        match self.reward_type {
            RewardType::Fixed => true,
            RewardType::Variable => self.variable_rate.accrued_reward_per_gem
                + variable_delta_spec(self.variable_rate, self.funds, self.times, now_ts, farm_gems)
                <= u64::MAX,
        }
    }

    /// The reward after a pool-wide update at `now_ts`: a pro-rata reward accounts
    /// for its emission; a fixed-rate one needs no pool-wide tick.
    pub open spec fn pool_updated(self, now_ts: u64, farm_gems: u64) -> FarmReward {
        match self.reward_type {
            RewardType::Fixed => self,
            RewardType::Variable => {
                let d = variable_delta_spec(
                    self.variable_rate,
                    self.funds,
                    self.times,
                    now_ts,
                    farm_gems,
                );
                self.with_state(
                    self.fixed_rate,
                    VariableRateReward {
                        accrued_reward_per_gem: (self.variable_rate.accrued_reward_per_gem
                            + d) as u64,
                        reward_last_updated_ts: max_int(
                            self.variable_rate.reward_last_updated_ts as int,
                            min_int(self.times.reward_end_ts as int, now_ts as int),
                        ) as u64,
                    },
                    FundsTracker {
                        total_accrued_to_stakers: (self.funds.total_accrued_to_stakers + d
                            * farm_gems) as u64,
                        ..self.funds
                    },
                    self.times,
                )
            },
        }
    }

    /// Fixed rate: the window `[from, to]` a farmer is credited for.
    pub open spec fn fixed_window(self, now_ts: u64, tracker: FarmerRewardTracker) -> (int, int) {
        (
            FixedRateReward::window_from(tracker, self.times),
            min_int(self.times.reward_end_ts as int, now_ts as int),
        )
    }

    /// Fixed rate: what a farmer is credited at `now_ts`.
    pub open spec fn fixed_credit(
        self,
        now_ts: u64,
        farmer_gems: u64,
        tracker: FarmerRewardTracker,
    ) -> int {
        let (from, to) = self.fixed_window(now_ts, tracker);
        if tracker.is_whole || to <= from {
            0
        } else {
            min_int(
                self.fixed_rate.owed_spec(self.times, tracker, now_ts, farmer_gems),
                self.funds.pending_spec(),
            )
        }
    }

    /// Whether updating a farmer at `now_ts` succeeds.
    pub open spec fn farmer_update_ok(
        self,
        now_ts: u64,
        farm_gems: u64,
        farmer_gems: u64,
        tracker: FarmerRewardTracker,
    ) -> bool {
        match self.reward_type {
            RewardType::Fixed => {
                let (from, to) = self.fixed_window(now_ts, tracker);
                tracker.is_whole || to <= from || (fixed_owed_fits(
                    self.fixed_rate.committed_reward as int,
                    to - from,
                    farmer_gems as int,
                ) && tracker.accrued_reward + self.fixed_credit(now_ts, farmer_gems, tracker)
                    <= u64::MAX)
            },
            RewardType::Variable => {
                let per_gem = self.pool_updated(
                    now_ts,
                    farm_gems,
                ).variable_rate.accrued_reward_per_gem;
                &&& self.pool_update_ok(now_ts, farm_gems)
                &&& tracker.last_recorded_accrued_reward_per_gem <= per_gem
                &&& tracker.accrued_reward + (per_gem
                    - tracker.last_recorded_accrued_reward_per_gem) * farmer_gems <= u64::MAX
            },
        }
    }

    /// The reward and the farmer's tracker after updating the farmer at `now_ts`.
    pub open spec fn farmer_updated(
        self,
        now_ts: u64,
        farm_gems: u64,
        farmer_gems: u64,
        tracker: FarmerRewardTracker,
    ) -> (FarmReward, FarmerRewardTracker) {
        match self.reward_type {
            RewardType::Fixed => {
                let (from, to) = self.fixed_window(now_ts, tracker);
                if tracker.is_whole || to <= from {
                    (self, tracker)
                } else {
                    let credit = self.fixed_credit(now_ts, farmer_gems, tracker);
                    (
                        self.with_state(
                            self.fixed_rate,
                            self.variable_rate,
                            FundsTracker {
                                total_accrued_to_stakers: (self.funds.total_accrued_to_stakers
                                    + credit) as u64,
                                ..self.funds
                            },
                            self.times,
                        ),
                        FarmerRewardTracker {
                            accrued_reward: (tracker.accrued_reward + credit) as u64,
                            fixed_last_updated_ts: to as u64,
                            ..tracker
                        },
                    )
                }
            },
            RewardType::Variable => {
                let next = self.pool_updated(now_ts, farm_gems);
                let per_gem = next.variable_rate.accrued_reward_per_gem;
                (
                    next,
                    FarmerRewardTracker {
                        accrued_reward: (tracker.accrued_reward + (per_gem
                            - tracker.last_recorded_accrued_reward_per_gem) * farmer_gems) as u64,
                        last_recorded_accrued_reward_per_gem: per_gem,
                        ..tracker
                    },
                )
            },
        }
    }

    pub fn new(reward_mint: Pubkey, reward_pot: Pubkey, reward_type: RewardType) -> (r: FarmReward)
        ensures
            r.wf(),
            r.reward_mint.bytes@ == reward_mint.bytes@,
            r.reward_pot.bytes@ == reward_pot.bytes@,
            r.reward_type == reward_type,
            r.fixed_rate == FixedRateReward::new_spec(),
            r.variable_rate == (VariableRateReward {
                accrued_reward_per_gem: 0,
                reward_last_updated_ts: 0,
            }),
            r.funds == (FundsTracker {
                total_funded: 0,
                total_refunded: 0,
                total_accrued_to_stakers: 0,
            }),
            r.times == (TimeTracker { duration_sec: 0, reward_end_ts: 0, lock_end_ts: 0 }),
    {
        FarmReward {
            reward_mint,
            reward_pot,
            reward_type,
            fixed_rate: FixedRateReward::new(),
            variable_rate: VariableRateReward::new(),
            funds: FundsTracker::new(),
            times: TimeTracker::new(),
        }
    }

    /// Locks the reward until its schedule ends. There is no way to unlock it.
    pub fn lock_reward_by_type(&mut self)
        requires
            old(self).wf(),
        ensures
            final(self).wf(),
            *final(self) == (
                old(self).with_state(
                    old(self).fixed_rate,
                    old(self).variable_rate,
                    old(self).funds,
                    TimeTracker { lock_end_ts: old(self).times.reward_end_ts, ..old(self).times },
                )
            ),
            final(self).times.lock_end_ts >= old(self).times.lock_end_ts,
    {
        self.times.lock_end_ts = self.times.reward_end_ts;
    }

    pub fn is_locked(&self, now_ts: u64) -> (r: bool)
        ensures
            r == self.is_locked_spec(now_ts),
    {
        now_ts < self.times.lock_end_ts
    }

    /// Pool-wide update at `now_ts`, with `farm_gems_staked` gems staked since the
    /// last one.
    pub fn update_accrued_reward_by_type(&mut self, now_ts: u64, farm_gems_staked: u64) -> (r:
        Result<(), ErrorCode>)
        requires
            old(self).wf(),
        ensures
            final(self).times == old(self).times,
            final(self).wf(),
            r.is_ok() <==> old(self).pool_update_ok(now_ts, farm_gems_staked),
            r.is_ok() ==> *final(self) == (old(self).pool_updated(now_ts, farm_gems_staked)),
            r.is_err() ==> r == Err::<(), ErrorCode>(ErrorCode::ArithmeticOverflow)
                && *final(self) == (*old(self)),
    {
        match self.reward_type {
            RewardType::Variable => self.variable_rate.update_accrued_reward(
                now_ts,
                &mut self.funds,
                &self.times,
                farm_gems_staked,
            ),
            RewardType::Fixed => Ok(()),
        }
    }

    /// The reward after `amount` is added and a schedule of `duration_sec` seconds
    /// starts at `now_ts`.
    pub open spec fn funded(self, now_ts: u64, amount: u64, duration_sec: u64) -> FarmReward {
        let funds = FundsTracker {
            total_funded: (self.funds.total_funded + amount) as u64,
            ..self.funds
        };
        let times = TimeTracker {
            duration_sec,
            reward_end_ts: (now_ts + duration_sec) as u64,
            lock_end_ts: self.times.lock_end_ts,
        };
        match self.reward_type {
            RewardType::Variable => self.with_state(
                self.fixed_rate,
                VariableRateReward { reward_last_updated_ts: now_ts, ..self.variable_rate },
                funds,
                times,
            ),
            RewardType::Fixed => self.with_state(
                FixedRateReward {
                    committed_reward: funds.pending_spec() as u64,
                    committed_gems: if self.fixed_rate.gems_participating > 0 {
                        self.fixed_rate.gems_participating
                    } else {
                        1
                    },
                    ..self.fixed_rate
                },
                self.variable_rate,
                funds,
                times,
            ),
        }
    }

    /// Whether cancelling at `now_ts` succeeds, the reward being unlocked.
    pub open spec fn cancel_ok(self, now_ts: u64) -> bool {
        match self.reward_type {
            RewardType::Variable => self.times.remaining_spec(now_ts) <= self.times.duration_sec,
            RewardType::Fixed => fixed_owed_fits(
                self.fixed_rate.committed_reward as int,
                self.times.remaining_spec(now_ts),
                self.fixed_rate.gems_participating as int,
            ),
        }
    }

    /// The amount cancelling at `now_ts` refunds: all that is pending for a
    /// pro-rata reward; for a fixed-rate one, what is not reserved for the gems
    /// still participating.
    pub open spec fn refund_spec(self, now_ts: u64) -> int {
        match self.reward_type {
            RewardType::Variable => self.funds.pending_spec(),
            RewardType::Fixed => self.funds.pending_spec() - self.fixed_rate.reserved_spec(
                self.times,
                self.funds,
                now_ts,
            ),
        }
    }

    /// The reward after cancelling at `now_ts`: the refund is booked and a
    /// pro-rata schedule ends now.
    pub open spec fn cancelled(self, now_ts: u64) -> FarmReward {
        let funds = FundsTracker {
            total_refunded: (self.funds.total_refunded + self.refund_spec(now_ts)) as u64,
            ..self.funds
        };
        match self.reward_type {
            RewardType::Variable => self.with_state(
                self.fixed_rate,
                self.variable_rate,
                funds,
                TimeTracker {
                    duration_sec: (self.times.duration_sec - self.times.remaining_spec(
                        now_ts,
                    )) as u64,
                    reward_end_ts: now_ts,
                    lock_end_ts: self.times.lock_end_ts,
                },
            ),
            RewardType::Fixed => self.with_state(
                self.fixed_rate,
                self.variable_rate,
                funds,
                self.times,
            ),
        }
    }

    /// Brings a farmer holding `farmer_gems_staked` gems up to date at `now_ts`.
    pub fn update_farmer_reward(
        &mut self,
        now_ts: u64,
        farm_gems_staked: u64,
        farmer_gems_staked: u64,
        tracker: &mut FarmerRewardTracker,
    ) -> (r: Result<(), ErrorCode>)
        requires
            old(self).wf(),
        ensures
            final(self).times == old(self).times,
            final(self).wf(),
            r.is_ok() <==> old(self).farmer_update_ok(
                now_ts,
                farm_gems_staked,
                farmer_gems_staked,
                *old(tracker),
            ),
            r.is_ok() ==> {
                let (reward, t) = old(self).farmer_updated(
                    now_ts,
                    farm_gems_staked,
                    farmer_gems_staked,
                    *old(tracker),
                );
                *final(self) == (reward) && *final(tracker) == t
            },
            r matches Err(e) ==> e == ErrorCode::ArithmeticOverflow || e
                == ErrorCode::ArithmeticUnderflow,
    {
        match self.reward_type {
            RewardType::Variable => {
                match self.variable_rate.update_accrued_reward(
                    now_ts,
                    &mut self.funds,
                    &self.times,
                    farm_gems_staked,
                ) {
                    Ok(()) => {},
                    Err(e) => return Err(e),
                }
                self.variable_rate.update_farmer(farmer_gems_staked, tracker)
            },
            RewardType::Fixed => self.fixed_rate.update_accrued_reward(
                now_ts,
                &mut self.funds,
                &self.times,
                farmer_gems_staked,
                tracker,
            ),
        }
    }

    /// Adds `amount` to the reward over a new schedule of `duration_sec` seconds.
    /// Refused while the reward is locked.
    pub fn fund_reward_by_type(&mut self, now_ts: u64, amount: u64, duration_sec: u64) -> (r:
        Result<(), ErrorCode>)
        requires
            old(self).wf(),
        ensures
            final(self).wf(),
            final(self).times.lock_end_ts == old(self).times.lock_end_ts,
            old(self).is_locked_spec(now_ts) ==> r == Err::<(), ErrorCode>(ErrorCode::RewardLocked)
                && *final(self) == (*old(self)),
            !old(self).is_locked_spec(now_ts) ==> {
                &&& r.is_ok() <==> old(self).funds.total_funded + amount <= u64::MAX && now_ts
                    + duration_sec <= u64::MAX
                &&& r.is_ok() ==> *final(self) == (old(self).funded(now_ts, amount, duration_sec))
                &&& r.is_err() ==> r == Err::<(), ErrorCode>(ErrorCode::ArithmeticOverflow)
                    && *final(self) == (*old(self))
            },
    {
        if self.is_locked(now_ts) {
            return Err(ErrorCode::RewardLocked);
        }
        match self.reward_type {
            RewardType::Variable => self.variable_rate.fund_reward(
                now_ts,
                &mut self.times,
                &mut self.funds,
                amount,
                duration_sec,
            ),
            RewardType::Fixed => self.fixed_rate.fund_reward(
                now_ts,
                &mut self.times,
                &mut self.funds,
                amount,
                duration_sec,
            ),
        }
    }

    /// Cancels the reward at `now_ts` and returns the amount to hand back to the
    /// funder. Refused while the reward is locked.
    pub fn cancel_reward_by_type(&mut self, now_ts: u64) -> (r: Result<u64, ErrorCode>)
        requires
            old(self).wf(),
        ensures
            final(self).wf(),
            final(self).times.lock_end_ts == old(self).times.lock_end_ts,
            old(self).is_locked_spec(now_ts) ==> r == Err::<u64, ErrorCode>(ErrorCode::RewardLocked)
                && *final(self) == (*old(self)),
            !old(self).is_locked_spec(now_ts) ==> {
                &&& r.is_ok() <==> old(self).cancel_ok(now_ts)
                &&& r matches Ok(x) ==> x == old(self).refund_spec(now_ts) && *final(self) == (
                    old(self).cancelled(now_ts)
                )
                &&& r.is_err() ==> *final(self) == (*old(self)) && (r == Err::<u64, ErrorCode>(
                    ErrorCode::ArithmeticUnderflow,
                ) || r == Err::<u64, ErrorCode>(ErrorCode::ArithmeticOverflow))
            },
    {
        if self.is_locked(now_ts) {
            return Err(ErrorCode::RewardLocked);
        }
        match self.reward_type {
            RewardType::Variable => self.variable_rate.cancel_reward(
                now_ts,
                &mut self.times,
                &mut self.funds,
            ),
            RewardType::Fixed => self.fixed_rate.cancel_reward(now_ts, &self.times, &mut self.funds),
        }
    }
    /// Whether `gems` more gems can join a fixed-rate reward's participants.
    pub open spec fn can_join(self, gems: int) -> bool {
        self.reward_type == RewardType::Fixed ==> self.fixed_rate.gems_participating + gems
            <= u64::MAX
    }

    /// The reward once `gems` more gems participate in it; a pro-rata reward
    /// keeps no such count.
    pub open spec fn joined(self, gems: int) -> FarmReward {
        match self.reward_type {
            RewardType::Fixed => FarmReward {
                fixed_rate: FixedRateReward {
                    gems_participating: (self.fixed_rate.gems_participating + gems) as u64,
                    ..self.fixed_rate
                },
                ..self
            },
            RewardType::Variable => self,
        }
    }

    /// Whether `gems` gems can leave a fixed-rate reward's participants.
    pub open spec fn can_leave(self, gems: int) -> bool {
        self.reward_type == RewardType::Fixed ==> gems <= self.fixed_rate.gems_participating
            && self.fixed_rate.gems_made_whole + gems <= u64::MAX
    }

    /// The reward once `gems` gems have left it, made whole.
    pub open spec fn left(self, gems: int) -> FarmReward {
        match self.reward_type {
            RewardType::Fixed => FarmReward {
                fixed_rate: FixedRateReward {
                    gems_participating: (self.fixed_rate.gems_participating - gems) as u64,
                    gems_made_whole: (self.fixed_rate.gems_made_whole + gems) as u64,
                    ..self.fixed_rate
                },
                ..self
            },
            RewardType::Variable => self,
        }
    }

    /// The farmer's tracker once they have left the reward: made whole, where the
    /// rate is fixed.
    pub open spec fn left_tracker(self, tracker: FarmerRewardTracker) -> FarmerRewardTracker {
        match self.reward_type {
            RewardType::Fixed => FarmerRewardTracker { is_whole: true, ..tracker },
            RewardType::Variable => tracker,
        }
    }

    /// Counts `gems` more gems among a fixed-rate reward's participants.
    pub fn join(&mut self, gems: u64) -> (r: Result<(), ErrorCode>)
        requires
            old(self).wf(),
        ensures
            final(self).wf(),
            r.is_ok() <==> old(self).can_join(gems as int),
            r.is_ok() ==> *final(self) == old(self).joined(gems as int),
            r.is_err() ==> r == Err::<(), ErrorCode>(ErrorCode::ArithmeticOverflow)
                && *final(self) == *old(self),
    {
        if self.reward_type == RewardType::Fixed {
            match self.fixed_rate.gems_participating.checked_add(gems) {
                Some(v) => self.fixed_rate.gems_participating = v,
                None => return Err(ErrorCode::ArithmeticOverflow),
            }
        }
        Ok(())
    }

    /// Moves `gems` gems from a fixed-rate reward's participants to those made
    /// whole, and marks the farmer's tracker whole. Their reward must already be
    /// brought up to date.
    pub fn leave(&mut self, gems: u64, tracker: &mut FarmerRewardTracker) -> (r: Result<
        (),
        ErrorCode,
    >)
        requires
            old(self).wf(),
        ensures
            final(self).wf(),
            r.is_ok() <==> old(self).can_leave(gems as int),
            r.is_ok() ==> *final(self) == old(self).left(gems as int) && *final(tracker) == old(
                self,
            ).left_tracker(*old(tracker)),
            r matches Err(e) ==> (e == ErrorCode::ArithmeticOverflow || e
                == ErrorCode::ArithmeticUnderflow) && *final(self) == *old(self) && *final(tracker)
                == *old(tracker),
    {
        if self.reward_type == RewardType::Fixed {
            if gems > self.fixed_rate.gems_participating {
                return Err(ErrorCode::ArithmeticUnderflow);
            }
            let whole = match self.fixed_rate.gems_made_whole.checked_add(gems) {
                Some(v) => v,
                None => return Err(ErrorCode::ArithmeticOverflow),
            };
            self.fixed_rate.gems_participating = self.fixed_rate.gems_participating - gems;
            self.fixed_rate.gems_made_whole = whole;
            tracker.mark_whole();
        }
        Ok(())
    }
}

impl FixedRateReward {
    pub open spec fn new_spec() -> FixedRateReward {
        FixedRateReward {
            gems_participating: 0,
            gems_made_whole: 0,
            committed_reward: 0,
            committed_gems: 0,
        }
    }
}

} // verus!
