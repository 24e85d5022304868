use gem_farm::error::ErrorCode;
use gem_farm::farm::{Farm, FarmConfig, RewardSlot};
use gem_farm::farmer::{Farmer, FarmerState};
use gem_farm::pubkey::Pubkey;
use gem_farm::reward::{FarmReward, RewardType};
use gem_farm::trackers::{FundsTracker, TimeTracker};

fn key(b: u8) -> Pubkey {
    Pubkey::new([b; 32])
}

fn farm_with(type_a: RewardType, type_b: RewardType, min: u64, cooldown: u64) -> Farm {
    let config = FarmConfig {
        min_staking_period_sec: min,
        cooldown_period_sec: cooldown,
        unstaking_fee_lamp: 0,
    };
    Farm::new(
        key(10),
        key(11),
        key(12),
        key(13),
        254,
        key(14),
        config,
        FarmReward::new(key(1), key(21), type_a),
        FarmReward::new(key(2), key(22), type_b),
    )
}

#[test]
fn variable_rate_split_between_two_farmers() {
    let mut farm = farm_with(RewardType::Variable, RewardType::Variable, 0, 0);
    let mut a = Farmer::new();
    let mut b = Farmer::new();
    farm.begin_staking(0, 10, &mut a).unwrap();
    farm.fund_reward_by_mint(0, &key(1), 1000, 1000).unwrap();

    farm.update_rewards_for_all_mints(500, &mut a).unwrap();
    assert_eq!(a.reward_a.accrued_reward, 500);

    farm.begin_staking(500, 10, &mut b).unwrap();
    farm.update_rewards_for_all_mints(1000, &mut a).unwrap();
    farm.update_rewards_for_all_mints(1000, &mut b).unwrap();
    assert_eq!(a.reward_a.accrued_reward, 750);
    assert_eq!(b.reward_a.accrued_reward, 250);
    assert_eq!(farm.reward_a.funds.total_accrued_to_stakers, 1000);
    assert_eq!(farm.reward_a.funds.total_funded, 1000);
    // Reward B was never funded.
    assert_eq!(a.reward_b.accrued_reward, 0);
}

#[test]
fn fixed_rate_accrues_and_makes_whole() {
    let mut farm = farm_with(RewardType::Fixed, RewardType::Variable, 0, 0);
    let mut f = Farmer::new();
    farm.begin_staking(0, 1, &mut f).unwrap();
    farm.fund_reward_by_mint(0, &key(1), 100, 100).unwrap();

    farm.update_rewards_for_all_mints(50, &mut f).unwrap();
    assert_eq!(f.reward_a.accrued_reward, 50);

    farm.end_staking(50, &mut f).unwrap();
    assert_eq!(farm.reward_a.fixed_rate.gems_made_whole, 1);
    assert_eq!(farm.reward_a.fixed_rate.gems_participating, 0);
    assert!(f.reward_a.is_whole);
    assert_eq!(f.state, FarmerState::Unstaked);

    farm.fund_reward_by_mint(60, &key(1), 100, 100).unwrap();
    farm.update_rewards_for_all_mints(120, &mut f).unwrap();
    assert_eq!(f.reward_a.accrued_reward, 50);
}

#[test]
fn whole_farmer_update_changes_nothing() {
    let mut farm = farm_with(RewardType::Fixed, RewardType::Fixed, 0, 0);
    let mut f = Farmer::new();
    farm.begin_staking(0, 2, &mut f).unwrap();
    farm.fund_reward_by_mint(0, &key(1), 100, 100).unwrap();
    farm.end_staking(40, &mut f).unwrap();
    let accrued = f.reward_a.accrued_reward;
    let funds = farm.reward_a.funds;
    assert_eq!(accrued, 40);
    farm.update_rewards_for_all_mints(80, &mut f).unwrap();
    farm.update_rewards_for_all_mints(90, &mut f).unwrap();
    assert_eq!(f.reward_a.accrued_reward, accrued);
    assert_eq!(farm.reward_a.funds, funds);
}

#[test]
fn unstaked_interval_stays_pending() {
    let mut farm = farm_with(RewardType::Variable, RewardType::Variable, 0, 0);
    farm.fund_reward_by_mint(0, &key(1), 1000, 1000).unwrap();
    farm.update_rewards(500).unwrap();
    assert_eq!(farm.reward_a.funds.total_accrued_to_stakers, 0);
    assert_eq!(farm.reward_a.funds.pending_amount(), Ok(1000));
    let refunded = farm.cancel_reward_by_mint(600, &key(1)).unwrap();
    assert_eq!(refunded, 1000);
    assert_eq!(farm.reward_a.funds.total_refunded, 1000);
    assert_eq!(farm.reward_a.times.reward_end_ts, 600);
    assert_eq!(farm.reward_a.times.duration_sec, 600);
}

#[test]
fn emission_resumes_after_empty_interval() {
    let mut farm = farm_with(RewardType::Variable, RewardType::Variable, 0, 0);
    let mut f = Farmer::new();
    farm.fund_reward_by_mint(0, &key(1), 1000, 1000).unwrap();
    farm.begin_staking(500, 4, &mut f).unwrap();
    farm.update_rewards_for_all_mints(1000, &mut f).unwrap();
    // The half emitted with nobody staked is emitted again over the rest.
    assert_eq!(f.reward_a.accrued_reward, 1000);
    assert_eq!(farm.reward_a.funds.total_accrued_to_stakers, 1000);
}

#[test]
fn lock_blocks_fund_and_cancel_until_end() {
    let mut farm = farm_with(RewardType::Variable, RewardType::Fixed, 0, 0);
    farm.fund_reward_by_mint(0, &key(1), 1000, 100).unwrap();
    farm.lock_reward_by_mint(&key(1)).unwrap();
    assert_eq!(farm.reward_a.times.lock_end_ts, 100);
    assert_eq!(farm.fund_reward_by_mint(50, &key(1), 10, 10), Err(ErrorCode::RewardLocked));
    assert_eq!(farm.cancel_reward_by_mint(99, &key(1)), Err(ErrorCode::RewardLocked));
    farm.lock_reward_by_mint(&key(1)).unwrap();
    assert_eq!(farm.reward_a.times.lock_end_ts, 100);
    // Reward B is not locked.
    farm.fund_reward_by_mint(50, &key(2), 10, 10).unwrap();
    assert_eq!(farm.cancel_reward_by_mint(100, &key(1)), Ok(1000));
}

#[test]
fn lifecycle_round_trip_with_cooldown() {
    let mut farm = farm_with(RewardType::Fixed, RewardType::Variable, 10, 5);
    let mut f = Farmer::new();
    farm.begin_staking(0, 7, &mut f).unwrap();
    assert_eq!(farm.gems_staked, 7);
    assert_eq!(farm.staked_farmer_count, 1);
    assert_eq!(farm.reward_a.fixed_rate.gems_participating, 7);
    assert_eq!(f.state, FarmerState::Staked);
    assert_eq!(f.begin_staking_ts, 0);

    assert_eq!(farm.end_staking(9, &mut f), Err(ErrorCode::MinStakingPeriodNotElapsed));
    farm.end_staking(10, &mut f).unwrap();
    assert_eq!(f.state, FarmerState::PendingCooldown);
    assert_eq!(f.cooldown_ends_ts, 15);
    assert_eq!(f.gems_staked, 7);
    assert_eq!(farm.gems_staked, 0);
    assert_eq!(farm.staked_farmer_count, 0);
    assert_eq!(farm.reward_a.fixed_rate.gems_participating, 0);
    assert_eq!(farm.reward_a.fixed_rate.gems_made_whole, 7);

    assert_eq!(farm.end_staking(14, &mut f), Err(ErrorCode::CooldownNotElapsed));
    farm.end_staking(15, &mut f).unwrap();
    assert_eq!(f.state, FarmerState::Unstaked);
    assert_eq!(f.gems_staked, 0);

    // Already unstaked: nothing changes.
    farm.end_staking(20, &mut f).unwrap();
    assert_eq!(f.state, FarmerState::Unstaked);
}

#[test]
fn lifecycle_round_trip_without_cooldown() {
    let mut farm = farm_with(RewardType::Variable, RewardType::Variable, 0, 0);
    let mut f = Farmer::new();
    farm.begin_staking(3, 5, &mut f).unwrap();
    farm.end_staking(3, &mut f).unwrap();
    assert_eq!(f.state, FarmerState::Unstaked);
    assert_eq!(f.gems_staked, 0);
    assert_eq!(farm.gems_staked, 0);
    assert_eq!(farm.staked_farmer_count, 0);
}

#[test]
fn empty_vault_cannot_stake() {
    let mut farm = farm_with(RewardType::Variable, RewardType::Variable, 0, 0);
    let mut f = Farmer::new();
    assert_eq!(farm.begin_staking(0, 0, &mut f), Err(ErrorCode::VaultIsEmpty));
    assert_eq!(f.state, FarmerState::Unstaked);
}

#[test]
fn unknown_mint_is_refused() {
    let mut farm = farm_with(RewardType::Variable, RewardType::Variable, 0, 0);
    assert_eq!(farm.match_reward_by_mint(&key(2)), Ok(RewardSlot::B));
    assert_eq!(farm.match_reward_by_mint(&key(3)), Err(ErrorCode::UnknownRewardMint));
    assert_eq!(farm.fund_reward_by_mint(0, &key(3), 1, 1), Err(ErrorCode::UnknownRewardMint));
    assert_eq!(farm.cancel_reward_by_mint(0, &key(3)), Err(ErrorCode::UnknownRewardMint));
    assert_eq!(farm.lock_reward_by_mint(&key(3)), Err(ErrorCode::UnknownRewardMint));
}

#[test]
fn stake_extra_gems_adds_to_position() {
    let mut farm = farm_with(RewardType::Variable, RewardType::Fixed, 100, 0);
    let mut f = Farmer::new();
    farm.fund_reward_by_mint(0, &key(1), 1000, 1000).unwrap();
    farm.begin_staking(0, 10, &mut f).unwrap();
    farm.stake_extra_gems(500, 10, &mut f).unwrap();
    assert_eq!(f.reward_a.accrued_reward, 500);
    assert_eq!(f.gems_staked, 20);
    assert_eq!(f.begin_staking_ts, 0);
    assert_eq!(farm.gems_staked, 20);
    assert_eq!(farm.reward_b.fixed_rate.gems_participating, 20);
    farm.update_rewards_for_all_mints(1000, &mut f).unwrap();
    assert_eq!(f.reward_a.accrued_reward, 1000);
}

#[test]
fn fixed_cancel_keeps_reserve_for_participants() {
    let mut farm = farm_with(RewardType::Fixed, RewardType::Variable, 0, 0);
    let mut f = Farmer::new();
    farm.begin_staking(0, 1, &mut f).unwrap();
    farm.fund_reward_by_mint(0, &key(1), 100, 100).unwrap();
    assert_eq!(farm.cancel_reward_by_mint(50, &key(1)), Ok(50));
    farm.update_rewards_for_all_mints(100, &mut f).unwrap();
    assert_eq!(f.reward_a.accrued_reward, 50);
    assert_eq!(farm.reward_a.funds.pending_amount(), Ok(0));
}

#[test]
fn fixed_rate_is_capped_by_pending() {
    let mut farm = farm_with(RewardType::Fixed, RewardType::Variable, 0, 0);
    let mut f = Farmer::new();
    let mut g = Farmer::new();
    farm.begin_staking(0, 1, &mut f).unwrap();
    farm.fund_reward_by_mint(0, &key(1), 100, 100).unwrap();
    farm.begin_staking(0, 1, &mut g).unwrap();
    farm.update_rewards_for_all_mints(100, &mut f).unwrap();
    farm.update_rewards_for_all_mints(100, &mut g).unwrap();
    assert_eq!(f.reward_a.accrued_reward, 100);
    assert_eq!(g.reward_a.accrued_reward, 0);
    assert_eq!(farm.reward_a.funds.total_accrued_to_stakers, 100);
}

#[test]
fn funding_overflow_is_refused() {
    let mut farm = farm_with(RewardType::Variable, RewardType::Variable, 0, 0);
    farm.fund_reward_by_mint(0, &key(1), u64::MAX, 10).unwrap();
    assert_eq!(farm.fund_reward_by_mint(0, &key(1), 1, 10), Err(ErrorCode::ArithmeticOverflow));
    assert_eq!(farm.fund_reward_by_mint(5, &key(2), 1, u64::MAX), Err(ErrorCode::ArithmeticOverflow));
}

#[test]
fn pending_amount_detects_corrupt_books() {
    let ok = FundsTracker { total_funded: 10, total_refunded: 3, total_accrued_to_stakers: 4 };
    assert_eq!(ok.pending_amount(), Ok(3));
    let bad = FundsTracker { total_funded: 10, total_refunded: 6, total_accrued_to_stakers: 5 };
    assert_eq!(bad.pending_amount(), Err(ErrorCode::BookkeepingInvariantViolated));
}

#[test]
fn funds_tracker_counts() {
    let mut t = FundsTracker::new();
    t.fund(10).unwrap();
    t.refund(3).unwrap();
    t.accrue(2).unwrap();
    assert_eq!(t, FundsTracker { total_funded: 10, total_refunded: 3, total_accrued_to_stakers: 2 });
    assert_eq!(t.fund(u64::MAX), Err(ErrorCode::ArithmeticOverflow));
    assert_eq!(t.total_funded, 10);
}

#[test]
fn time_tracker_formulas() {
    let mut t = TimeTracker { duration_sec: 100, reward_end_ts: 150, lock_end_ts: 0 };
    assert_eq!(t.remaining_duration(120), 30);
    assert_eq!(t.remaining_duration(200), 0);
    assert_eq!(t.passed_duration(120), Ok(70));
    assert_eq!(t.passed_duration(200), Ok(100));
    assert_eq!(t.upper_bound(120), 120);
    assert_eq!(t.upper_bound(200), 150);
    t.end_reward(120).unwrap();
    assert_eq!(t, TimeTracker { duration_sec: 70, reward_end_ts: 120, lock_end_ts: 0 });
    t.extend_or_reset(130, 40).unwrap();
    assert_eq!(t, TimeTracker { duration_sec: 40, reward_end_ts: 170, lock_end_ts: 0 });
    let short = TimeTracker { duration_sec: 10, reward_end_ts: 150, lock_end_ts: 0 };
    assert_eq!(short.passed_duration(100), Err(ErrorCode::ArithmeticUnderflow));
}

#[test]
fn pubkeys_compare_by_bytes() {
    let mut bytes = [7u8; 32];
    assert!(Pubkey::new(bytes).same_as(&key(7)));
    bytes[31] = 8;
    assert!(!Pubkey::new(bytes).same_as(&key(7)));
}

#[test]
fn farmers_are_counted_when_added() {
    let mut farm = farm_with(RewardType::Variable, RewardType::Variable, 0, 0);
    let f = farm.add_farmer().unwrap();
    farm.add_farmer().unwrap();
    assert_eq!(farm.farmer_count, 2);
    assert_eq!(f.state, FarmerState::Unstaked);
    assert_eq!(f.gems_staked, 0);
    farm.farmer_count = u64::MAX;
    assert_eq!(farm.add_farmer().err(), Some(ErrorCode::ArithmeticOverflow));
}
