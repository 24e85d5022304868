use vstd::prelude::*;

verus! {

/// Where a farmer stands in the staking lifecycle.
#[derive(Debug, Clone, Copy, PartialEq, Eq, Structural)]
pub enum FarmerState {
    Unstaked,
    Staked,
    PendingCooldown,
}

/// What one farmer has earned of one reward, and where its accrual stands.
#[derive(Debug, Clone, Copy, PartialEq, Eq, Structural)]
pub struct FarmerRewardTracker {
    /// Reward accrued to the farmer and not yet claimed.
    pub accrued_reward: u64,
    /// Variable rate: the reward per gem of the pool when the farmer was last updated.
    pub last_recorded_accrued_reward_per_gem: u64,
    /// Fixed rate: the time up to which the farmer has been credited.
    pub fixed_last_updated_ts: u64,
    /// Fixed rate: the farmer has received the whole reward for their staking time.
    pub is_whole: bool,
}

/// One staker's record.
#[derive(Debug, Clone, Copy, PartialEq, Eq, Structural)]
pub struct Farmer {
    pub state: FarmerState,
    pub gems_staked: u64,
    pub begin_staking_ts: u64,
    pub cooldown_ends_ts: u64,
    pub reward_a: FarmerRewardTracker,
    pub reward_b: FarmerRewardTracker,
}

impl FarmerRewardTracker {
    pub fn new() -> (r: FarmerRewardTracker)
        ensures
            r.accrued_reward == 0,
            r.last_recorded_accrued_reward_per_gem == 0,
            r.fixed_last_updated_ts == 0,
            !r.is_whole,
    {
        FarmerRewardTracker {
            accrued_reward: 0,
            last_recorded_accrued_reward_per_gem: 0,
            fixed_last_updated_ts: 0,
            is_whole: false,
        }
    }

    /// Takes the farmer out of a fixed-rate reward's distribution.
    pub fn mark_whole(&mut self)
        ensures
            *final(self) == (FarmerRewardTracker { is_whole: true, ..*old(self) }),
    {
        self.is_whole = true;
    }
}

impl Farmer {
    pub open spec fn new_spec() -> Farmer {
        Farmer {
            state: FarmerState::Unstaked,
            gems_staked: 0,
            begin_staking_ts: 0,
            cooldown_ends_ts: 0,
            reward_a: FarmerRewardTracker::new_spec(),
            reward_b: FarmerRewardTracker::new_spec(),
        }
    }

    /// A fresh record, with nothing staked.
    pub fn new() -> (r: Farmer)
        ensures
            r == Farmer::new_spec(),
    {
        Farmer {
            state: FarmerState::Unstaked,
            gems_staked: 0,
            begin_staking_ts: 0,
            cooldown_ends_ts: 0,
            reward_a: FarmerRewardTracker::new(),
            reward_b: FarmerRewardTracker::new(),
        }
    }
}

impl FarmerRewardTracker {
    pub open spec fn new_spec() -> FarmerRewardTracker {
        FarmerRewardTracker {
            accrued_reward: 0,
            last_recorded_accrued_reward_per_gem: 0,
            fixed_last_updated_ts: 0,
            is_whole: false,
        }
    }
}

} // verus!
