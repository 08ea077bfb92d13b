use vstd::prelude::*;

use crate::error::CrowdfundingError;
use crate::state::{Campaign, Contribution, Pubkey, Transfer};

verus! {

/// The accounts of the refund instruction: the campaign, the donor who
/// signs, the campaign's vault and the donor's contribution record.
pub struct Refund {
    pub campaign: Campaign,
    pub donor: Pubkey,
    pub vault: Pubkey,
    pub contribution: Contribution,
}

/// A refund is allowed when the campaign was cancelled, or when its deadline
/// has passed without the goal being reached.
pub open spec fn refund_allowed(campaign: Campaign, now: i64) -> bool {
    campaign.cancelled || campaign.failed(now)
}

/// Which error, if any, the refund instruction answers.
pub open spec fn refund_error(campaign: Campaign, now: i64) -> Option<CrowdfundingError> {
    if refund_allowed(campaign, now) {
        None
    } else {
        Some(CrowdfundingError::RefundNotAllowed)
    }
}

/// The campaign after `amount` was paid back from it.
pub open spec fn refunded(campaign: Campaign, amount: u64) -> Campaign {
    Campaign { raised: (campaign.raised - amount) as u64, ..campaign }
}

/// The donor's record after the refund: nothing left to claim.
pub open spec fn contribution_cleared(contribution: Contribution) -> Contribution {
    Contribution { amount: 0, ..contribution }
}

/// Pays the donor back everything recorded in their contribution, from the
/// vault, when the campaign was cancelled or failed.
pub fn refund_handler(ctx: &mut Refund, now: i64) -> (r: Result<Transfer, CrowdfundingError>)
    requires
        refund_allowed(old(ctx).campaign, now) ==> old(ctx).contribution.amount
            <= old(ctx).campaign.raised,
    ensures
        final(ctx).donor == old(ctx).donor,
        final(ctx).vault == old(ctx).vault,
        match r {
            Ok(t) => {
                &&& refund_allowed(old(ctx).campaign, now)
                &&& final(ctx).campaign == refunded(old(ctx).campaign, old(ctx).contribution.amount)
                &&& final(ctx).contribution == contribution_cleared(old(ctx).contribution)
                &&& t == (Transfer {
                    from: old(ctx).vault,
                    to: old(ctx).donor,
                    lamports: old(ctx).contribution.amount,
                })
            },
            Err(e) => {
                &&& refund_error(old(ctx).campaign, now) == Some(e)
                &&& final(ctx).campaign == old(ctx).campaign
                &&& final(ctx).contribution == old(ctx).contribution
            },
        },
{
    let amount = ctx.contribution.amount;
    let can_refund = ctx.campaign.cancelled || (now >= ctx.campaign.deadline
        && ctx.campaign.raised < ctx.campaign.goal);
    if !can_refund {
        return Err(CrowdfundingError::RefundNotAllowed);
    }
    let transfer = Transfer { from: ctx.vault, to: ctx.donor, lamports: amount };
    ctx.contribution.amount = 0;
    ctx.campaign.raised = ctx.campaign.raised - amount;
    Ok(transfer)
}

} // verus!
