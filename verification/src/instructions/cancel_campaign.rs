use vstd::prelude::*;

use crate::error::CrowdfundingError;
use crate::state::{Campaign, Pubkey};

verus! {

/// The accounts of the cancel instruction: the campaign and the signer.
pub struct CancelCampaign {
    pub campaign: Campaign,
    pub creator: Pubkey,
}

/// Which error, if any, the cancel instruction answers.
pub open spec fn cancel_campaign_error(campaign: Campaign, signer: Pubkey) -> Option<
    CrowdfundingError,
> {
    if signer@ != campaign.creator@ {
        Some(CrowdfundingError::NotCreator)
    } else if campaign.claimed {
        Some(CrowdfundingError::AlreadyClaimed)
    } else if campaign.cancelled {
        Some(CrowdfundingError::CampaignCancelled)
    } else {
        None
    }
}

/// The campaign after its creator cancelled it.
pub open spec fn cancelled(campaign: Campaign) -> Campaign {
    Campaign { cancelled: true, ..campaign }
}

/// The creator cancels a campaign whose funds were not claimed, which opens
/// refunds to every donor at once.
pub fn cancel_campaign_handler(ctx: &mut CancelCampaign) -> (r: Result<(), CrowdfundingError>)
    ensures
        final(ctx).creator == old(ctx).creator,
        match r {
            Ok(()) => {
                &&& cancel_campaign_error(old(ctx).campaign, old(ctx).creator) is None
                &&& final(ctx).campaign == cancelled(old(ctx).campaign)
            },
            Err(e) => {
                &&& cancel_campaign_error(old(ctx).campaign, old(ctx).creator) == Some(e)
                &&& final(ctx).campaign == old(ctx).campaign
            },
        },
{
    if !ctx.creator.equals(&ctx.campaign.creator) {
        return Err(CrowdfundingError::NotCreator);
    }
    if ctx.campaign.claimed {
        return Err(CrowdfundingError::AlreadyClaimed);
    }
    if ctx.campaign.cancelled {
        return Err(CrowdfundingError::CampaignCancelled);
    }
    ctx.campaign.cancelled = true;
    Ok(())
}

} // verus!
