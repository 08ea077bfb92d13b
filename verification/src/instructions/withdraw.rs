use vstd::prelude::*;

use crate::error::CrowdfundingError;
use crate::state::{Campaign, Pubkey, Transfer};

verus! {

/// The accounts of the withdraw instruction: the campaign, the creator who
/// signs, and the campaign's vault with the lamports it holds.
pub struct Withdraw {
    pub campaign: Campaign,
    pub creator: Pubkey,
    pub vault: Pubkey,
    pub vault_lamports: u64,
}

/// Which error, if any, the withdraw instruction answers.
pub open spec fn withdraw_error(campaign: Campaign, signer: Pubkey, now: i64) -> Option<
    CrowdfundingError,
> {
    if campaign.raised < campaign.goal {
        Some(CrowdfundingError::GoalNotReached)
    } else if now < campaign.deadline {
        Some(CrowdfundingError::DeadlineNotPassed)
    } else if signer@ != campaign.creator@ {
        Some(CrowdfundingError::NotCreator)
    } else if campaign.claimed {
        Some(CrowdfundingError::AlreadyClaimed)
    } else if campaign.cancelled {
        Some(CrowdfundingError::CampaignCancelled)
    } else {
        None
    }
}

/// The campaign after its funds were claimed.
pub open spec fn claimed(campaign: Campaign) -> Campaign {
    Campaign { claimed: true, ..campaign }
}

/// Hands the whole vault to the creator once the goal is reached and the
/// deadline has passed; a campaign pays out at most once.
pub fn withdraw_handler(ctx: &mut Withdraw, now: i64) -> (r: Result<Transfer, CrowdfundingError>)
    ensures
        final(ctx).creator == old(ctx).creator,
        final(ctx).vault == old(ctx).vault,
        final(ctx).vault_lamports == old(ctx).vault_lamports,
        match r {
            Ok(t) => {
                &&& withdraw_error(old(ctx).campaign, old(ctx).creator, now) is None
                &&& final(ctx).campaign == claimed(old(ctx).campaign)
                &&& t == (Transfer {
                    from: old(ctx).vault,
                    to: old(ctx).creator,
                    lamports: old(ctx).vault_lamports,
                })
            },
            Err(e) => {
                &&& withdraw_error(old(ctx).campaign, old(ctx).creator, now) == Some(e)
                &&& final(ctx).campaign == old(ctx).campaign
            },
        },
{
    let amount = ctx.vault_lamports;
    if ctx.campaign.raised < ctx.campaign.goal {
        return Err(CrowdfundingError::GoalNotReached);
    }
    if now < ctx.campaign.deadline {
        return Err(CrowdfundingError::DeadlineNotPassed);
    }
    if !ctx.creator.equals(&ctx.campaign.creator) {
        return Err(CrowdfundingError::NotCreator);
    }
    if ctx.campaign.claimed {
        return Err(CrowdfundingError::AlreadyClaimed);
    }
    if ctx.campaign.cancelled {
        return Err(CrowdfundingError::CampaignCancelled);
    }
    let transfer = Transfer { from: ctx.vault, to: ctx.creator, lamports: amount };
    ctx.campaign.claimed = true;
    Ok(transfer)
}

} // verus!
