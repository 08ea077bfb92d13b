use vstd::prelude::*;

use crate::error::CrowdfundingError;
use crate::state::{Campaign, Contribution, Pubkey, Transfer};

verus! {

/// The accounts of the contribute instruction. The contribution account is
/// the donor's record for this campaign; one that did not exist yet holds
/// zeroes.
pub struct Contribute {
    pub campaign: Campaign,
    pub campaign_key: Pubkey,
    pub donor: Pubkey,
    pub contribution: Contribution,
    pub vault: Pubkey,
}

/// Which error, if any, the contribute instruction answers.
pub open spec fn contribute_error(campaign: Campaign, amount: u64, now: i64) -> Option<
    CrowdfundingError,
> {
    if campaign.cancelled {
        Some(CrowdfundingError::CampaignCancelled)
    } else if now >= campaign.deadline {
        Some(CrowdfundingError::DeadlinePassed)
    } else if amount == 0 {
        Some(CrowdfundingError::AmountZero)
    } else {
        None
    }
}

/// The campaign after `amount` was contributed to it.
pub open spec fn contributed(campaign: Campaign, amount: u64) -> Campaign {
    Campaign { raised: (campaign.raised + amount) as u64, ..campaign }
}

/// The donor's record after `amount` was contributed.
pub open spec fn contribution_added(
    contribution: Contribution,
    campaign_key: Pubkey,
    donor: Pubkey,
    amount: u64,
) -> Contribution {
    Contribution { donor, campaign: campaign_key, amount: (contribution.amount + amount) as u64 }
}

/// Adds `amount` lamports from the donor to an open campaign: the campaign's
/// total and the donor's record both grow by `amount`, and the lamports move
/// from the donor to the vault.
pub fn contribute_handler(ctx: &mut Contribute, amount: u64, now: i64) -> (r: Result<
    Transfer,
    CrowdfundingError,
>)
    requires
        contribute_error(old(ctx).campaign, amount, now) is None ==> {
            &&& old(ctx).campaign.raised + amount <= u64::MAX
            &&& old(ctx).contribution.amount + amount <= u64::MAX
        },
    ensures
        final(ctx).campaign_key == old(ctx).campaign_key,
        final(ctx).donor == old(ctx).donor,
        final(ctx).vault == old(ctx).vault,
        match r {
            Ok(t) => {
                &&& contribute_error(old(ctx).campaign, amount, now) is None
                &&& final(ctx).campaign == contributed(old(ctx).campaign, amount)
                &&& final(ctx).contribution == contribution_added(
                    old(ctx).contribution,
                    old(ctx).campaign_key,
                    old(ctx).donor,
                    amount,
                )
                &&& t == (Transfer { from: old(ctx).donor, to: old(ctx).vault, lamports: amount })
            },
            Err(e) => {
                &&& contribute_error(old(ctx).campaign, amount, now) == Some(e)
                &&& final(ctx).campaign == old(ctx).campaign
                &&& final(ctx).contribution == old(ctx).contribution
            },
        },
{
    if ctx.campaign.cancelled {
        return Err(CrowdfundingError::CampaignCancelled);
    }
    if now >= ctx.campaign.deadline {
        return Err(CrowdfundingError::DeadlinePassed);
    }
    if amount == 0 {
        return Err(CrowdfundingError::AmountZero);
    }
    let transfer = Transfer { from: ctx.donor, to: ctx.vault, lamports: amount };
    ctx.campaign.raised = ctx.campaign.raised + amount;
    ctx.contribution.donor = ctx.donor;
    ctx.contribution.amount = ctx.contribution.amount + amount;
    ctx.contribution.campaign = ctx.campaign_key;
    Ok(transfer)
}

} // verus!
