use vstd::prelude::*;

use crate::farm::Farm;
use crate::farmer::{Farmer, FarmerRewardTracker, FarmerState};
use crate::reward::{FarmReward, RewardType};

verus! {

/// Conservation: a well-formed farm never reports, for either reward, more
/// refunded and accrued than was funded, so the pending amount is never negative.
/// Every operation of the farm keeps it well formed.
pub proof fn lemma_conservation(farm: Farm)
    requires
        farm.wf(),
    ensures
        farm.reward_a.funds.total_refunded + farm.reward_a.funds.total_accrued_to_stakers
            <= farm.reward_a.funds.total_funded,
        farm.reward_b.funds.total_refunded + farm.reward_b.funds.total_accrued_to_stakers
            <= farm.reward_b.funds.total_funded,
        farm.reward_a.funds.pending_spec() >= 0,
        farm.reward_b.funds.pending_spec() >= 0,
{
}

/// Once a farmer has been made whole in a fixed-rate reward, updating them again
/// succeeds and changes neither the reward nor their tracker: nothing is credited twice.
pub proof fn lemma_whole_update_is_noop(
    reward: FarmReward,
    now_ts: u64,
    farm_gems: u64,
    farmer_gems: u64,
    tracker: FarmerRewardTracker,
)
    requires
        reward.reward_type == RewardType::Fixed,
        tracker.is_whole,
    ensures
        reward.farmer_update_ok(now_ts, farm_gems, farmer_gems, tracker),
        reward.farmer_updated(now_ts, farm_gems, farmer_gems, tracker) == (reward, tracker),
{
}

/// A pro-rata reward updated with no gem staked accrues nothing: its funds are
/// unchanged, and what it would have emitted stays pending, so that cancelling
/// afterwards refunds all of it.
pub proof fn lemma_unstaked_interval_does_not_leak(reward: FarmReward, now_ts: u64, later_ts: u64)
    requires
        reward.wf(),
        reward.reward_type == RewardType::Variable,
    ensures
        reward.pool_update_ok(now_ts, 0),
        reward.pool_updated(now_ts, 0).funds == reward.funds,
        reward.pool_updated(now_ts, 0).refund_spec(later_ts) == reward.funds.pending_spec(),
{
}

/// A locked reward stays locked through any step that does not lower its lock
/// end, which every operation of the farm ensures; while it is locked, funding
/// and cancelling fail.
pub proof fn lemma_lock_persists(before: FarmReward, after: FarmReward, now_ts: u64)
    requires
        before.is_locked_spec(now_ts),
        after.times.lock_end_ts >= before.times.lock_end_ts,
    ensures
        after.is_locked_spec(now_ts),
{
}

/// Staking `gems` gems, being brought up to date and unstaking returns the farm's
/// counts to what they were, and leaves the farmer unstaked with no gems, or in
/// cooldown with their gems until a last `end_staking` clears them. The counts
/// must have room for the gems, as both operations check.
pub proof fn lemma_lifecycle_round_trip(
    farm: Farm,
    farmer: Farmer,
    begin_ts: u64,
    gems: u64,
    end_ts: u64,
)
    requires
        farm.can_stake(gems),
        farm.reward_a.fixed_rate.gems_made_whole + gems <= u64::MAX,
        farm.reward_b.fixed_rate.gems_made_whole + gems <= u64::MAX,
    ensures
        ({
            let (f1, r1) = farm.staked(farmer, begin_ts, gems);
            let (f2, r2) = f1.farmer_updated(end_ts, r1);
            let (f3, r3) = f2.unstaked(r2, end_ts);
            &&& f2.can_unstake(r2.gems_staked)
            &&& f3.gems_staked == farm.gems_staked
            &&& f3.staked_farmer_count == farm.staked_farmer_count
            &&& f3.reward_a.fixed_rate.gems_participating
                == farm.reward_a.fixed_rate.gems_participating
            &&& f3.reward_b.fixed_rate.gems_participating
                == farm.reward_b.fixed_rate.gems_participating
            &&& farm.config.cooldown_period_sec == 0 ==> r3.state == FarmerState::Unstaked
                && r3.gems_staked == 0
            &&& farm.config.cooldown_period_sec > 0 ==> r3.state == FarmerState::PendingCooldown
                && r3.gems_staked == gems
        }),
{
    let (f1, r1) = farm.staked(farmer, begin_ts, gems);
    let (f2, r2) = f1.farmer_updated(end_ts, r1);
    let (ra, ta) = f1.reward_a.farmer_updated(end_ts, f1.gems_staked, r1.gems_staked, r1.reward_a);
    let (rb, tb) = f1.reward_b.farmer_updated(end_ts, f1.gems_staked, r1.gems_staked, r1.reward_b);
    assert(ra.fixed_rate == f1.reward_a.fixed_rate && ra.reward_type == f1.reward_a.reward_type);
    assert(rb.fixed_rate == f1.reward_b.fixed_rate && rb.reward_type == f1.reward_b.reward_type);
    assert(f2.reward_a == ra && f2.reward_b == rb);
}

} // verus!
