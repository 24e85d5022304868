use vstd::prelude::*;

use crate::error::ErrorCode;
use crate::farmer::{Farmer, FarmerRewardTracker, FarmerState};
use crate::pubkey::Pubkey;
use crate::reward::FarmReward;

verus! {

/// Policy of a farm, fixed when it is created.
#[derive(Debug, Clone, Copy, PartialEq, Eq, Structural)]
pub struct FarmConfig {
    /// Least time gems stay staked before the farmer may unstake.
    pub min_staking_period_sec: u64,
    /// Time between unstaking and being able to withdraw.
    pub cooldown_period_sec: u64,
    /// Fee charged on unstaking; collected by the custody side.
    pub unstaking_fee_lamp: u64,
}

/// Which of the farm's two rewards.
#[derive(Debug, Clone, Copy, PartialEq, Eq, Structural)]
pub enum RewardSlot {
    A,
    B,
}

/// A staking pool paying two rewards.
#[derive(Debug, Clone, Copy)]
pub struct Farm {
    pub version: u16,
    pub farm_manager: Pubkey,
    /// Collects any fees the farm earns.
    pub farm_treasury: Pubkey,
    /// Signs off on the bank operations of the farm.
    pub farm_authority: Pubkey,
    pub farm_authority_seed: Pubkey,
    pub farm_authority_bump_seed: u8,
    /// The bank whose vaults hold the staked gems.
    pub bank: Pubkey,
    pub config: FarmConfig,
    /// Farmers ever registered, staked or not.
    pub farmer_count: u64,
    /// Farmers currently staked.
    pub staked_farmer_count: u64,
    /// Gems currently staked over all farmers.
    pub gems_staked: u64,
    pub authorized_funder_count: u64,
    pub reward_a: FarmReward,
    pub reward_b: FarmReward,
}

pub const LATEST_FARM_VERSION: u16 = 0;

impl Farmer {
    /// An unstaked farmer holds no gems.
    pub open spec fn wf(&self) -> bool {
        self.state == FarmerState::Unstaked ==> self.gems_staked == 0
    }
}

/// A tracker as it starts a new period of staking at `now_ts`.
pub open spec fn restarted(tracker: FarmerRewardTracker, now_ts: u64) -> FarmerRewardTracker {
    FarmerRewardTracker { is_whole: false, fixed_last_updated_ts: now_ts, ..tracker }
}

/// Whether the minimum staking period of a farmer who began at `begin_ts` is over.
pub open spec fn min_period_over(begin_ts: u64, now_ts: u64, min_period: u64) -> bool {
    begin_ts <= now_ts && now_ts - begin_ts >= min_period
}

impl Farm {
    pub open spec fn wf(&self) -> bool {
        self.reward_a.wf() && self.reward_b.wf()
    }

    pub open spec fn reward(self, slot: RewardSlot) -> FarmReward {
        match slot {
            RewardSlot::A => self.reward_a,
            RewardSlot::B => self.reward_b,
        }
    }

    pub open spec fn with_reward(self, slot: RewardSlot, reward: FarmReward) -> Farm {
        match slot {
            RewardSlot::A => Farm { reward_a: reward, ..self },
            RewardSlot::B => Farm { reward_b: reward, ..self },
        }
    }

    /// The reward paid in `mint`, reward A first.
    pub open spec fn slot_of(self, mint: Pubkey) -> Option<RewardSlot> {
        if mint.bytes@ == self.reward_a.reward_mint.bytes@ {
            Some(RewardSlot::A)
        } else if mint.bytes@ == self.reward_b.reward_mint.bytes@ {
            Some(RewardSlot::B)
        } else {
            None
        }
    }

    /// Whether a pool-wide update of both rewards at `now_ts` succeeds.
    pub open spec fn pool_update_ok(self, now_ts: u64) -> bool {
        self.reward_a.pool_update_ok(now_ts, self.gems_staked) && self.reward_b.pool_update_ok(
            now_ts,
            self.gems_staked,
        )
    }

    /// The farm after a pool-wide update of both rewards at `now_ts`.
    pub open spec fn pool_updated(self, now_ts: u64) -> Farm {
        Farm {
            reward_a: self.reward_a.pool_updated(now_ts, self.gems_staked),
            reward_b: self.reward_b.pool_updated(now_ts, self.gems_staked),
            ..self
        }
    }

    /// Whether bringing `farmer` up to date in both rewards at `now_ts` succeeds.
    pub open spec fn farmer_update_ok(self, now_ts: u64, farmer: Farmer) -> bool {
        &&& self.reward_a.farmer_update_ok(
            now_ts,
            self.gems_staked,
            farmer.gems_staked,
            farmer.reward_a,
        )
        &&& self.reward_b.farmer_update_ok(
            now_ts,
            self.gems_staked,
            farmer.gems_staked,
            farmer.reward_b,
        )
    }

    /// The farm and the farmer after bringing the farmer up to date at `now_ts`.
    pub open spec fn farmer_updated(self, now_ts: u64, farmer: Farmer) -> (Farm, Farmer) {
        let (ra, ta) = self.reward_a.farmer_updated(
            now_ts,
            self.gems_staked,
            farmer.gems_staked,
            farmer.reward_a,
        );
        let (rb, tb) = self.reward_b.farmer_updated(
            now_ts,
            self.gems_staked,
            farmer.gems_staked,
            farmer.reward_b,
        );
        (Farm { reward_a: ra, reward_b: rb, ..self }, Farmer { reward_a: ta, reward_b: tb, ..farmer })
    }

    pub fn new(
        farm_manager: Pubkey,
        farm_treasury: Pubkey,
        farm_authority: Pubkey,
        farm_authority_seed: Pubkey,
        farm_authority_bump_seed: u8,
        bank: Pubkey,
        config: FarmConfig,
        reward_a: FarmReward,
        reward_b: FarmReward,
    ) -> (r: Farm)
        requires
            reward_a.wf(),
            reward_b.wf(),
        ensures
            r.wf(),
            r == (Farm {
                version: LATEST_FARM_VERSION,
                farm_manager,
                farm_treasury,
                farm_authority,
                farm_authority_seed,
                farm_authority_bump_seed,
                bank,
                config,
                farmer_count: 0,
                staked_farmer_count: 0,
                gems_staked: 0,
                authorized_funder_count: 0,
                reward_a,
                reward_b,
            }),
    {
        Farm {
            version: LATEST_FARM_VERSION,
            farm_manager,
            farm_treasury,
            farm_authority,
            farm_authority_seed,
            farm_authority_bump_seed,
            bank,
            config,
            farmer_count: 0,
            staked_farmer_count: 0,
            gems_staked: 0,
            authorized_funder_count: 0,
            reward_a,
            reward_b,
        }
    }

    /// Registers a new farmer with the farm and returns their fresh record.
    pub fn add_farmer(&mut self) -> (r: Result<Farmer, ErrorCode>)
        ensures
            r.is_ok() <==> old(self).farmer_count < u64::MAX,
            r matches Ok(farmer) ==> farmer == Farmer::new_spec() && farmer.wf() && *final(self)
                == (Farm { farmer_count: (old(self).farmer_count + 1) as u64, ..*old(self) }),
            r.is_err() ==> r == Err::<Farmer, ErrorCode>(ErrorCode::ArithmeticOverflow)
                && *final(self) == *old(self),
    {
        if self.farmer_count == u64::MAX {
            return Err(ErrorCode::ArithmeticOverflow);
        }
        self.farmer_count = self.farmer_count + 1;
        Ok(Farmer::new())
    }

    /// Finds the reward paid in `reward_mint`.
    pub fn match_reward_by_mint(&self, reward_mint: &Pubkey) -> (r: Result<RewardSlot, ErrorCode>)
        ensures
            match self.slot_of(*reward_mint) {
                Some(slot) => r == Ok::<RewardSlot, ErrorCode>(slot),
                None => r == Err::<RewardSlot, ErrorCode>(ErrorCode::UnknownRewardMint),
            },
    {
        if reward_mint.same_as(&self.reward_a.reward_mint) {
            Ok(RewardSlot::A)
        } else if reward_mint.same_as(&self.reward_b.reward_mint) {
            Ok(RewardSlot::B)
        } else {
            Err(ErrorCode::UnknownRewardMint)
        }
    }

    /// Locks the reward paid in `reward_mint` until its schedule ends; irreversible.
    pub fn lock_reward_by_mint(&mut self, reward_mint: &Pubkey) -> (r: Result<(), ErrorCode>)
        requires
            old(self).wf(),
        ensures
            final(self).wf(),
            match old(self).slot_of(*reward_mint) {
                Some(slot) => r.is_ok() && *final(self) == old(self).with_reward(
                    slot,
                    FarmReward {
                        times: crate::trackers::TimeTracker {
                            lock_end_ts: old(self).reward(slot).times.reward_end_ts,
                            ..old(self).reward(slot).times
                        },
                        ..old(self).reward(slot)
                    },
                ),
                None => r == Err::<(), ErrorCode>(ErrorCode::UnknownRewardMint) && *final(self)
                    == *old(self),
            },
            final(self).reward_a.times.lock_end_ts >= old(self).reward_a.times.lock_end_ts,
            final(self).reward_b.times.lock_end_ts >= old(self).reward_b.times.lock_end_ts,
    {
        match self.match_reward_by_mint(reward_mint) {
            Ok(RewardSlot::A) => self.reward_a.lock_reward_by_type(),
            Ok(RewardSlot::B) => self.reward_b.lock_reward_by_type(),
            Err(e) => return Err(e),
        }
        Ok(())
    }

    /// Brings both rewards up to date at `now_ts` for the whole pool.
    pub fn update_rewards(&mut self, now_ts: u64) -> (r: Result<(), ErrorCode>)
        requires
            old(self).wf(),
        ensures
            final(self).reward_a.times == old(self).reward_a.times,
            final(self).reward_b.times == old(self).reward_b.times,
            final(self).gems_staked == old(self).gems_staked,
            final(self).wf(),
            r.is_ok() <==> old(self).pool_update_ok(now_ts),
            r.is_ok() ==> *final(self) == old(self).pool_updated(now_ts),
            r.is_err() ==> r == Err::<(), ErrorCode>(ErrorCode::ArithmeticOverflow),
    {
        let gems = self.gems_staked;
        match self.reward_a.update_accrued_reward_by_type(now_ts, gems) {
            Ok(()) => {},
            Err(e) => return Err(e),
        }
        self.reward_b.update_accrued_reward_by_type(now_ts, gems)
    }

    /// Brings both rewards and the farmer's share of them up to date at `now_ts`,
    /// against the gems staked before any change that follows.
    pub fn update_rewards_for_all_mints(&mut self, now_ts: u64, farmer: &mut Farmer) -> (r: Result<
        (),
        ErrorCode,
    >)
        requires
            old(self).wf(),
        ensures
            final(self).reward_a.times == old(self).reward_a.times,
            final(self).reward_b.times == old(self).reward_b.times,
            final(self).gems_staked == old(self).gems_staked,
            final(farmer).state == old(farmer).state,
            final(farmer).gems_staked == old(farmer).gems_staked,
            final(self).wf(),
            r.is_ok() <==> old(self).farmer_update_ok(now_ts, *old(farmer)),
            r.is_ok() ==> (*final(self), *final(farmer)) == old(self).farmer_updated(
                now_ts,
                *old(farmer),
            ),
            r matches Err(e) ==> e == ErrorCode::ArithmeticOverflow || e
                == ErrorCode::ArithmeticUnderflow,
    {
        let farm_gems = self.gems_staked;
        let farmer_gems = farmer.gems_staked;
        match self.reward_a.update_farmer_reward(now_ts, farm_gems, farmer_gems, &mut farmer.reward_a) {
            Ok(()) => {},
            Err(e) => return Err(e),
        }
        self.reward_b.update_farmer_reward(now_ts, farm_gems, farmer_gems, &mut farmer.reward_b)
    }

    /// Brings both rewards up to date at `now_ts`, closing the period before the
    /// funding at the old rate, then adds `amount` to the reward paid in
    /// `reward_mint` over a new schedule of `duration_sec` seconds.
    pub fn fund_reward_by_mint(
        &mut self,
        now_ts: u64,
        reward_mint: &Pubkey,
        amount: u64,
        duration_sec: u64,
    ) -> (r: Result<(), ErrorCode>)
        requires
            old(self).wf(),
        ensures
            final(self).wf(),
            final(self).reward_a.times.lock_end_ts >= old(self).reward_a.times.lock_end_ts,
            final(self).reward_b.times.lock_end_ts >= old(self).reward_b.times.lock_end_ts,
            match old(self).slot_of(*reward_mint) {
                None => r == Err::<(), ErrorCode>(ErrorCode::UnknownRewardMint) && *final(self)
                    == *old(self),
                Some(slot) => if old(self).reward(slot).is_locked_spec(now_ts) {
                    r == Err::<(), ErrorCode>(ErrorCode::RewardLocked) && *final(self) == *old(self)
                } else {
                    let mid = old(self).pool_updated(now_ts);
                    &&& r.is_ok() <==> old(self).pool_update_ok(now_ts) && mid.reward(
                        slot,
                    ).funds.total_funded + amount <= u64::MAX && now_ts + duration_sec
                        <= u64::MAX
                    &&& r.is_ok() ==> *final(self) == mid.with_reward(
                        slot,
                        mid.reward(slot).funded(now_ts, amount, duration_sec),
                    )
                    &&& r.is_err() ==> r == Err::<(), ErrorCode>(ErrorCode::ArithmeticOverflow)
                },
            },
    {
        let slot = match self.match_reward_by_mint(reward_mint) {
            Ok(s) => s,
            Err(e) => return Err(e),
        };
        let locked = match slot {
            RewardSlot::A => self.reward_a.is_locked(now_ts),
            RewardSlot::B => self.reward_b.is_locked(now_ts),
        };
        if locked {
            return Err(ErrorCode::RewardLocked);
        }
        match self.update_rewards(now_ts) {
            Ok(()) => {},
            Err(e) => return Err(e),
        }
        match slot {
            RewardSlot::A => self.reward_a.fund_reward_by_type(now_ts, amount, duration_sec),
            RewardSlot::B => self.reward_b.fund_reward_by_type(now_ts, amount, duration_sec),
        }
    }

    /// Brings both rewards up to date at `now_ts`, then cancels the reward paid in
    /// `reward_mint` and returns the amount to hand back to the funder.
    pub fn cancel_reward_by_mint(&mut self, now_ts: u64, reward_mint: &Pubkey) -> (r: Result<
        u64,
        ErrorCode,
    >)
        requires
            old(self).wf(),
        ensures
            final(self).wf(),
            final(self).reward_a.times.lock_end_ts >= old(self).reward_a.times.lock_end_ts,
            final(self).reward_b.times.lock_end_ts >= old(self).reward_b.times.lock_end_ts,
            match old(self).slot_of(*reward_mint) {
                None => r == Err::<u64, ErrorCode>(ErrorCode::UnknownRewardMint) && *final(self)
                    == *old(self),
                Some(slot) => if old(self).reward(slot).is_locked_spec(now_ts) {
                    r == Err::<u64, ErrorCode>(ErrorCode::RewardLocked) && *final(self) == *old(self)
                } else {
                    let mid = old(self).pool_updated(now_ts);
                    &&& r.is_ok() <==> old(self).pool_update_ok(now_ts) && mid.reward(
                        slot,
                    ).cancel_ok(now_ts)
                    &&& r matches Ok(x) ==> x == mid.reward(slot).refund_spec(now_ts)
                        && *final(self) == mid.with_reward(slot, mid.reward(slot).cancelled(now_ts))
                    &&& r matches Err(e) ==> e == ErrorCode::ArithmeticOverflow || e
                        == ErrorCode::ArithmeticUnderflow
                },
            },
    {
        let slot = match self.match_reward_by_mint(reward_mint) {
            Ok(s) => s,
            Err(e) => return Err(e),
        };
        let locked = match slot {
            RewardSlot::A => self.reward_a.is_locked(now_ts),
            RewardSlot::B => self.reward_b.is_locked(now_ts),
        };
        if locked {
            return Err(ErrorCode::RewardLocked);
        }
        match self.update_rewards(now_ts) {
            Ok(()) => {},
            Err(e) => return Err(e),
        }
        match slot {
            RewardSlot::A => self.reward_a.cancel_reward_by_type(now_ts),
            RewardSlot::B => self.reward_b.cancel_reward_by_type(now_ts),
        }
    }

    /// The farm and the farmer after `gems` gems begin staking at `now_ts`, from
    /// the state in which the farmer was brought up to date.
    pub open spec fn staked(self, farmer: Farmer, now_ts: u64, gems: u64) -> (Farm, Farmer) {
        (
            Farm {
                staked_farmer_count: (self.staked_farmer_count + 1) as u64,
                gems_staked: (self.gems_staked + gems) as u64,
                reward_a: self.reward_a.joined(gems as int),
                reward_b: self.reward_b.joined(gems as int),
                ..self
            },
            Farmer {
                state: FarmerState::Staked,
                gems_staked: gems,
                begin_staking_ts: now_ts,
                reward_a: restarted(farmer.reward_a, now_ts),
                reward_b: restarted(farmer.reward_b, now_ts),
                ..farmer
            },
        )
    }

    /// Whether the counts of the farm take `gems` more staked gems and one more farmer.
    pub open spec fn can_stake(self, gems: u64) -> bool {
        &&& self.staked_farmer_count + 1 <= u64::MAX
        &&& self.gems_staked + gems <= u64::MAX
        &&& self.reward_a.can_join(gems as int)
        &&& self.reward_b.can_join(gems as int)
    }

    /// Stakes the `gems_in_vault` gems of an unstaked farmer at `now_ts`. The
    /// farmer's rewards are brought up to date first, while they hold no gems.
    pub fn begin_staking(&mut self, now_ts: u64, gems_in_vault: u64, farmer: &mut Farmer) -> (r:
        Result<(), ErrorCode>)
        requires
            old(self).wf(),
            old(farmer).wf(),
            old(farmer).state == FarmerState::Unstaked,
        ensures
            final(self).reward_a.times == old(self).reward_a.times,
            final(self).reward_b.times == old(self).reward_b.times,
            final(self).wf(),
            final(farmer).wf(),
            gems_in_vault == 0 ==> r == Err::<(), ErrorCode>(ErrorCode::VaultIsEmpty) && *final(self)
                == *old(self) && *final(farmer) == *old(farmer),
            gems_in_vault > 0 ==> {
                let (f1, t1) = old(self).farmer_updated(now_ts, *old(farmer));
                &&& r.is_ok() <==> old(self).farmer_update_ok(now_ts, *old(farmer)) && f1.can_stake(
                    gems_in_vault,
                )
                &&& r.is_ok() ==> (*final(self), *final(farmer)) == f1.staked(t1, now_ts, gems_in_vault)
                &&& r matches Err(e) ==> e == ErrorCode::ArithmeticOverflow || e
                    == ErrorCode::ArithmeticUnderflow
            },
    {
        if gems_in_vault == 0 {
            return Err(ErrorCode::VaultIsEmpty);
        }
        match self.update_rewards_for_all_mints(now_ts, farmer) {
            Ok(()) => {},
            Err(e) => return Err(e),
        }
        let count = match self.staked_farmer_count.checked_add(1) {
            Some(v) => v,
            None => return Err(ErrorCode::ArithmeticOverflow),
        };
        let gems = match self.gems_staked.checked_add(gems_in_vault) {
            Some(v) => v,
            None => return Err(ErrorCode::ArithmeticOverflow),
        };
        match self.reward_a.join(gems_in_vault) {
            Ok(()) => {},
            Err(e) => return Err(e),
        }
        match self.reward_b.join(gems_in_vault) {
            Ok(()) => {},
            Err(e) => return Err(e),
        }
        self.staked_farmer_count = count;
        self.gems_staked = gems;
        farmer.state = FarmerState::Staked;
        farmer.gems_staked = gems_in_vault;
        farmer.begin_staking_ts = now_ts;
        farmer.reward_a.is_whole = false;
        farmer.reward_a.fixed_last_updated_ts = now_ts;
        farmer.reward_b.is_whole = false;
        farmer.reward_b.fixed_last_updated_ts = now_ts;
        Ok(())
    }

    /// Whether the counts of the farm let a farmer holding `gems` gems leave.
    pub open spec fn can_unstake(self, gems: u64) -> bool {
        &&& self.staked_farmer_count >= 1
        &&& self.gems_staked >= gems
        &&& self.reward_a.can_leave(gems as int)
        &&& self.reward_b.can_leave(gems as int)
    }

    /// The farm and the farmer after a staked farmer leaves at `now_ts`, from the
    /// state in which the farmer was brought up to date.
    pub open spec fn unstaked(self, farmer: Farmer, now_ts: u64) -> (Farm, Farmer) {
        let gems = farmer.gems_staked;
        let cooldown = self.config.cooldown_period_sec;
        (
            Farm {
                staked_farmer_count: (self.staked_farmer_count - 1) as u64,
                gems_staked: (self.gems_staked - gems) as u64,
                reward_a: self.reward_a.left(gems as int),
                reward_b: self.reward_b.left(gems as int),
                ..self
            },
            Farmer {
                state: if cooldown == 0 {
                    FarmerState::Unstaked
                } else {
                    FarmerState::PendingCooldown
                },
                gems_staked: if cooldown == 0 {
                    0
                } else {
                    gems
                },
                cooldown_ends_ts: if cooldown == 0 {
                    farmer.cooldown_ends_ts
                } else {
                    (now_ts + cooldown) as u64
                },
                reward_a: self.reward_a.left_tracker(farmer.reward_a),
                reward_b: self.reward_b.left_tracker(farmer.reward_b),
                ..farmer
            },
        )
    }

    /// Moves a farmer on in the lifecycle at `now_ts`. An unstaked farmer stays
    /// as they are. A staked one, once the minimum staking period is over, is
    /// brought up to date and leaves: made whole in fixed-rate rewards, and
    /// unstaked at once or after the cooldown. A farmer in cooldown is unstaked
    /// once it is over.
    pub fn end_staking(&mut self, now_ts: u64, farmer: &mut Farmer) -> (r: Result<(), ErrorCode>)
        requires
            old(self).wf(),
            old(farmer).wf(),
        ensures
            final(self).reward_a.times == old(self).reward_a.times,
            final(self).reward_b.times == old(self).reward_b.times,
            final(self).wf(),
            final(farmer).wf(),
            match old(farmer).state {
                FarmerState::Unstaked => r.is_ok() && *final(self) == *old(self) && *final(farmer)
                    == *old(farmer),
                FarmerState::PendingCooldown => if now_ts < old(farmer).cooldown_ends_ts {
                    r == Err::<(), ErrorCode>(ErrorCode::CooldownNotElapsed) && *final(self)
                        == *old(self) && *final(farmer) == *old(farmer)
                } else {
                    r.is_ok() && *final(self) == *old(self) && *final(farmer) == (Farmer {
                        state: FarmerState::Unstaked,
                        gems_staked: 0,
                        ..*old(farmer)
                    })
                },
                FarmerState::Staked => if !min_period_over(
                    old(farmer).begin_staking_ts,
                    now_ts,
                    old(self).config.min_staking_period_sec,
                ) {
                    r == Err::<(), ErrorCode>(ErrorCode::MinStakingPeriodNotElapsed) && *final(self)
                        == *old(self) && *final(farmer) == *old(farmer)
                } else {
                    let (f1, t1) = old(self).farmer_updated(now_ts, *old(farmer));
                    &&& r.is_ok() <==> old(self).farmer_update_ok(now_ts, *old(farmer))
                        && f1.can_unstake(t1.gems_staked) && (old(self).config.cooldown_period_sec
                        > 0 ==> now_ts + old(self).config.cooldown_period_sec <= u64::MAX)
                    &&& r.is_ok() ==> (*final(self), *final(farmer)) == f1.unstaked(t1, now_ts)
                    &&& r matches Err(e) ==> e == ErrorCode::ArithmeticOverflow || e
                        == ErrorCode::ArithmeticUnderflow
                },
            },
    {
        match farmer.state {
            FarmerState::Unstaked => Ok(()),
            FarmerState::PendingCooldown => {
                if now_ts < farmer.cooldown_ends_ts {
                    return Err(ErrorCode::CooldownNotElapsed);
                }
                farmer.state = FarmerState::Unstaked;
                farmer.gems_staked = 0;
                Ok(())
            },
            FarmerState::Staked => {
                let min_period = self.config.min_staking_period_sec;
                if now_ts < farmer.begin_staking_ts || now_ts - farmer.begin_staking_ts < min_period {
                    return Err(ErrorCode::MinStakingPeriodNotElapsed);
                }
                match self.update_rewards_for_all_mints(now_ts, farmer) {
                    Ok(()) => {},
                    Err(e) => return Err(e),
                }
                let gems = farmer.gems_staked;
                let cooldown = self.config.cooldown_period_sec;
                let cooldown_ends = if cooldown == 0 {
                    farmer.cooldown_ends_ts
                } else {
                    match now_ts.checked_add(cooldown) {
                        Some(v) => v,
                        None => return Err(ErrorCode::ArithmeticOverflow),
                    }
                };
                if self.staked_farmer_count < 1 || self.gems_staked < gems {
                    return Err(ErrorCode::ArithmeticUnderflow);
                }
                match self.reward_a.leave(gems, &mut farmer.reward_a) {
                    Ok(()) => {},
                    Err(e) => return Err(e),
                }
                match self.reward_b.leave(gems, &mut farmer.reward_b) {
                    Ok(()) => {},
                    Err(e) => return Err(e),
                }
                self.staked_farmer_count = self.staked_farmer_count - 1;
                self.gems_staked = self.gems_staked - gems;
                if cooldown == 0 {
                    farmer.state = FarmerState::Unstaked;
                    farmer.gems_staked = 0;
                } else {
                    farmer.state = FarmerState::PendingCooldown;
                    farmer.cooldown_ends_ts = cooldown_ends;
                }
                Ok(())
            },
        }
    }

    /// Adds `extra_gems` gems to a staked farmer's position at `now_ts`, after
    /// bringing their rewards up to date. The staking clock is not reset: the
    /// minimum staking period still runs from the first stake.
    pub fn stake_extra_gems(&mut self, now_ts: u64, extra_gems: u64, farmer: &mut Farmer) -> (r:
        Result<(), ErrorCode>)
        requires
            old(self).wf(),
            old(farmer).wf(),
            old(farmer).state == FarmerState::Staked,
        ensures
            final(self).reward_a.times == old(self).reward_a.times,
            final(self).reward_b.times == old(self).reward_b.times,
            final(self).wf(),
            final(farmer).wf(),
            ({
                let (f1, t1) = old(self).farmer_updated(now_ts, *old(farmer));
                &&& r.is_ok() <==> old(self).farmer_update_ok(now_ts, *old(farmer)) && f1.gems_staked
                    + extra_gems <= u64::MAX && t1.gems_staked + extra_gems <= u64::MAX
                    && f1.reward_a.can_join(extra_gems as int) && f1.reward_b.can_join(
                    extra_gems as int,
                )
                &&& r.is_ok() ==> *final(self) == (Farm {
                    gems_staked: (f1.gems_staked + extra_gems) as u64,
                    reward_a: f1.reward_a.joined(extra_gems as int),
                    reward_b: f1.reward_b.joined(extra_gems as int),
                    ..f1
                }) && *final(farmer) == (Farmer {
                    gems_staked: (t1.gems_staked + extra_gems) as u64,
                    ..t1
                })
                &&& r matches Err(e) ==> e == ErrorCode::ArithmeticOverflow || e
                    == ErrorCode::ArithmeticUnderflow
            }),
    {
        match self.update_rewards_for_all_mints(now_ts, farmer) {
            Ok(()) => {},
            Err(e) => return Err(e),
        }
        let farm_gems = match self.gems_staked.checked_add(extra_gems) {
            Some(v) => v,
            None => return Err(ErrorCode::ArithmeticOverflow),
        };
        let farmer_gems = match farmer.gems_staked.checked_add(extra_gems) {
            Some(v) => v,
            None => return Err(ErrorCode::ArithmeticOverflow),
        };
        match self.reward_a.join(extra_gems) {
            Ok(()) => {},
            Err(e) => return Err(e),
        }
        match self.reward_b.join(extra_gems) {
            Ok(()) => {},
            Err(e) => return Err(e),
        }
        self.gems_staked = farm_gems;
        farmer.gems_staked = farmer_gems;
        Ok(())
    }
}

} // verus!
