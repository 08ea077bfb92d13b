use vstd::prelude::*;

use crate::error::CrowdfundingError;
use crate::state::{serialized_campaign_len, Campaign, Pubkey};

verus! {

/// The accounts of the create instruction: the creator who signs and pays,
/// and the freshly allocated campaign account.
pub struct CreateCampaign {
    pub creator: Pubkey,
    pub campaign: Campaign,
}

/// Which error, if any, the create instruction answers.
pub open spec fn create_campaign_error(
    goal: u64,
    deadline: i64,
    title: Seq<char>,
    description: Seq<char>,
    now: i64,
) -> Option<CrowdfundingError> {
    if deadline <= now {
        Some(CrowdfundingError::DeadlineInPast)
    } else if goal == 0 {
        Some(CrowdfundingError::GoalZero)
    } else if serialized_campaign_len(title, description) > Campaign::INIT_SPACE {
        Some(CrowdfundingError::CampaignTooLarge)
    } else {
        None
    }
}

/// The campaign that the create instruction writes.
pub open spec fn new_campaign(
    creator: Pubkey,
    goal: u64,
    deadline: i64,
    title: String,
    description: String,
) -> Campaign {
    Campaign {
        creator,
        goal,
        raised: 0,
        deadline,
        claimed: false,
        cancelled: false,
        title,
        description,
    }
}

/// Creates a campaign owned by the signing creator, with nothing raised yet.
pub fn create_campaign_handler(
    ctx: &mut CreateCampaign,
    goal: u64,
    deadline: i64,
    title: String,
    description: String,
    now: i64,
) -> (r: Result<(), CrowdfundingError>)
    ensures
        final(ctx).creator == old(ctx).creator,
        match r {
            Ok(()) => {
                &&& create_campaign_error(goal, deadline, title@, description@, now) is None
                &&& final(ctx).campaign == new_campaign(
                    old(ctx).creator,
                    goal,
                    deadline,
                    title,
                    description,
                )
            },
            Err(e) => {
                &&& create_campaign_error(goal, deadline, title@, description@, now) == Some(e)
                &&& final(ctx).campaign == old(ctx).campaign
            },
        },
{
    if deadline <= now {
        return Err(CrowdfundingError::DeadlineInPast);
    }
    if goal == 0 {
        return Err(CrowdfundingError::GoalZero);
    }
    let text_room: usize = Campaign::MAX_TITLE_LEN + Campaign::MAX_DESC_LEN;
    let title_bytes = title.as_str().as_bytes().len();
    let description_bytes = description.as_str().as_bytes().len();
    if title_bytes > text_room || description_bytes > text_room - title_bytes {
        return Err(CrowdfundingError::CampaignTooLarge);
    }
    ctx.campaign = Campaign {
        creator: ctx.creator,
        goal,
        raised: 0,
        deadline,
        claimed: false,
        cancelled: false,
        title,
        description,
    };
    Ok(())
}

} // verus!
