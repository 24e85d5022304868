use vstd::prelude::*;

verus! {

/// Every way an operation of the farm can fail.
#[derive(Debug, Clone, Copy, PartialEq, Eq, Structural)]
pub enum ErrorCode {
    ArithmeticOverflow,
    ArithmeticUnderflow,
    UnknownRewardMint,
    RewardLocked,
    MinStakingPeriodNotElapsed,
    CooldownNotElapsed,
    VaultIsEmpty,
    /// The pending amount of a reward would be negative: the totals are corrupt.
    BookkeepingInvariantViolated,
}

} // verus!
