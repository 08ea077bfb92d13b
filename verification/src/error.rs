use vstd::prelude::*;

verus! {

/// Why an instruction was refused.
#[derive(Clone, Copy, Debug, PartialEq, Eq, Structural)]
pub enum CrowdfundingError {
    /// Deadline must be in the future.
    DeadlineInPast,
    /// Goal must be greater than zero.
    GoalZero,
    /// Campaign goal not reached.
    GoalNotReached,
    /// Campaign goal already reached, no refund.
    GoalReached,
    /// Deadline not yet passed.
    DeadlineNotPassed,
    /// Not the campaign creator.
    NotCreator,
    /// Campaign already claimed.
    AlreadyClaimed,
    /// Campaign was cancelled by its creator.
    CampaignCancelled,
    /// Campaign deadline has passed.
    DeadlinePassed,
    /// Refund not allowed: campaign neither cancelled nor failed.
    RefundNotAllowed,
    /// Contribution must be greater than zero.
    AmountZero,
    /// Title and description together do not fit the campaign account.
    CampaignTooLarge,
}

} // verus!
