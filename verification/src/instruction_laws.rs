//! What each instruction does, stated over the campaign's fields: when it is
//! accepted, which error a refusal gives, and what an accepted call writes.
use vstd::prelude::*;

use crate::error::CrowdfundingError;
use crate::instructions::cancel_campaign::{cancel_campaign_error, cancelled};
use crate::instructions::contribute::{contribute_error, contributed, contribution_added};
use crate::instructions::create_campaign::{create_campaign_error, new_campaign};
use crate::instructions::refund::{contribution_cleared, refund_error, refunded};
use crate::instructions::withdraw::{claimed, withdraw_error};
use crate::state::{Campaign, Contribution, Pubkey};

verus! {

/// Two addresses have the same view exactly when they are the same 32 bytes,
/// so comparing views compares the addresses.
pub proof fn lemma_key_view_is_the_bytes(a: Pubkey, b: Pubkey)
    ensures
        a@.len() == 32,
        a@ == b@ <==> a == b,
        forall|i: int| 0 <= i < 32 ==> a@[i] == a.bytes[i],
{
    broadcast use vstd::array::group_array_axioms;

    if a@ == b@ {
        assert(a.bytes =~= b.bytes);
    }
}

/// Create accepts every request with a deadline in the future, a positive
/// goal, and a title and description whose UTF-8 bytes together fit the room
/// the account keeps for them, and only those. A deadline that is not in the
/// future is refused first, then a zero goal.
pub proof fn lemma_create_accepts_exactly_valid_requests(
    goal: u64,
    deadline: i64,
    title: Seq<char>,
    description: Seq<char>,
    now: i64,
)
    ensures
        create_campaign_error(goal, deadline, title, description, now) is None <==> {
            &&& deadline > now
            &&& goal > 0
            &&& vstd::utf8::encode_utf8(title).len() + vstd::utf8::encode_utf8(description).len()
                <= Campaign::MAX_TITLE_LEN + Campaign::MAX_DESC_LEN
        },
        deadline <= now ==> create_campaign_error(goal, deadline, title, description, now)
            == Some(CrowdfundingError::DeadlineInPast),
        deadline > now && goal == 0 ==> create_campaign_error(
            goal,
            deadline,
            title,
            description,
            now,
        ) == Some(CrowdfundingError::GoalZero),
{
}

/// A created campaign records the creator, goal, deadline, title and
/// description it was given, with nothing raised, unclaimed and not
/// cancelled.
pub proof fn lemma_create_records_the_request(
    creator: Pubkey,
    goal: u64,
    deadline: i64,
    title: String,
    description: String,
)
    ensures
        new_campaign(creator, goal, deadline, title, description).creator == creator,
        new_campaign(creator, goal, deadline, title, description).goal == goal,
        new_campaign(creator, goal, deadline, title, description).deadline == deadline,
        new_campaign(creator, goal, deadline, title, description).title == title,
        new_campaign(creator, goal, deadline, title, description).description == description,
        new_campaign(creator, goal, deadline, title, description).raised == 0,
        !new_campaign(creator, goal, deadline, title, description).claimed,
        !new_campaign(creator, goal, deadline, title, description).cancelled,
{
}

/// An open campaign (not cancelled, before its deadline) takes every positive
/// contribution, whether or not its goal is already reached, and nothing
/// else is taken. Contributions close at the deadline: from then on every
/// contribution is refused, whatever was raised.
pub proof fn lemma_contribute_accepts_exactly_open_campaigns(
    campaign: Campaign,
    amount: u64,
    now: i64,
)
    ensures
        contribute_error(campaign, amount, now) is None <==> {
            &&& !campaign.cancelled
            &&& now < campaign.deadline
            &&& amount > 0
        },
        now >= campaign.deadline ==> contribute_error(campaign, amount, now) is Some,
        campaign.cancelled ==> contribute_error(campaign, amount, now) == Some(
            CrowdfundingError::CampaignCancelled,
        ),
        !campaign.cancelled && now >= campaign.deadline ==> contribute_error(campaign, amount, now)
            == Some(CrowdfundingError::DeadlinePassed),
        !campaign.cancelled && now < campaign.deadline && amount == 0 ==> contribute_error(
            campaign,
            amount,
            now,
        ) == Some(CrowdfundingError::AmountZero),
{
}

/// An accepted contribution adds exactly the amount to `raised` and to the
/// donor's record, stamps the record with the donor and the campaign, and
/// changes nothing else of the campaign.
pub proof fn lemma_contribute_adds_the_amount(
    campaign: Campaign,
    record: Contribution,
    campaign_key: Pubkey,
    donor: Pubkey,
    amount: u64,
)
    requires
        campaign.raised + amount <= u64::MAX,
        record.amount + amount <= u64::MAX,
    ensures
        contributed(campaign, amount).raised == campaign.raised + amount,
        contributed(campaign, amount).creator == campaign.creator,
        contributed(campaign, amount).goal == campaign.goal,
        contributed(campaign, amount).deadline == campaign.deadline,
        contributed(campaign, amount).claimed == campaign.claimed,
        contributed(campaign, amount).cancelled == campaign.cancelled,
        contributed(campaign, amount).title == campaign.title,
        contributed(campaign, amount).description == campaign.description,
        contribution_added(record, campaign_key, donor, amount).amount == record.amount + amount,
        contribution_added(record, campaign_key, donor, amount).donor == donor,
        contribution_added(record, campaign_key, donor, amount).campaign == campaign_key,
{
}

/// A payout is accepted exactly when the goal is reached, the deadline has
/// passed, the signer is the creator, and the campaign is neither claimed
/// nor cancelled. A campaign short of its goal answers `GoalNotReached`; one
/// that reached it answers `DeadlineNotPassed` before its deadline, however
/// much was raised.
pub proof fn lemma_withdraw_accepts_exactly_successful_campaigns(
    campaign: Campaign,
    signer: Pubkey,
    now: i64,
)
    ensures
        withdraw_error(campaign, signer, now) is None <==> {
            &&& campaign.raised >= campaign.goal
            &&& now >= campaign.deadline
            &&& signer@ == campaign.creator@
            &&& !campaign.claimed
            &&& !campaign.cancelled
        },
        withdraw_error(campaign, signer, now) is None ==> now >= campaign.deadline,
        campaign.raised < campaign.goal ==> withdraw_error(campaign, signer, now) == Some(
            CrowdfundingError::GoalNotReached,
        ),
        campaign.raised >= campaign.goal && now < campaign.deadline ==> withdraw_error(
            campaign,
            signer,
            now,
        ) == Some(CrowdfundingError::DeadlineNotPassed),
        campaign.raised >= campaign.goal && now >= campaign.deadline && signer@
            != campaign.creator@ ==> withdraw_error(campaign, signer, now) == Some(
            CrowdfundingError::NotCreator,
        ),
{
}

/// An accepted payout marks the campaign claimed and changes nothing else.
pub proof fn lemma_withdraw_marks_claimed(campaign: Campaign)
    ensures
        claimed(campaign).claimed,
        claimed(campaign).raised == campaign.raised,
        claimed(campaign).creator == campaign.creator,
        claimed(campaign).goal == campaign.goal,
        claimed(campaign).deadline == campaign.deadline,
        claimed(campaign).cancelled == campaign.cancelled,
        claimed(campaign).title == campaign.title,
        claimed(campaign).description == campaign.description,
{
}

/// A refund is accepted exactly when the campaign was cancelled or its
/// deadline passed short of the goal; any other refund is refused with
/// `RefundNotAllowed`.
pub proof fn lemma_refund_accepts_exactly_cancelled_or_failed(campaign: Campaign, now: i64)
    ensures
        refund_error(campaign, now) is None <==> (campaign.cancelled || (now >= campaign.deadline
            && campaign.raised < campaign.goal)),
        refund_error(campaign, now) is Some ==> refund_error(campaign, now) == Some(
            CrowdfundingError::RefundNotAllowed,
        ),
{
}

/// An accepted refund takes exactly the refunded amount off `raised`, clears
/// the donor's record while keeping its owner, and changes nothing else.
pub proof fn lemma_refund_returns_the_record(campaign: Campaign, record: Contribution)
    requires
        record.amount <= campaign.raised,
    ensures
        refunded(campaign, record.amount).raised == campaign.raised - record.amount,
        refunded(campaign, record.amount).creator == campaign.creator,
        refunded(campaign, record.amount).goal == campaign.goal,
        refunded(campaign, record.amount).deadline == campaign.deadline,
        refunded(campaign, record.amount).claimed == campaign.claimed,
        refunded(campaign, record.amount).cancelled == campaign.cancelled,
        refunded(campaign, record.amount).title == campaign.title,
        refunded(campaign, record.amount).description == campaign.description,
        contribution_cleared(record).amount == 0,
        contribution_cleared(record).donor == record.donor,
        contribution_cleared(record).campaign == record.campaign,
{
}

/// Cancel is accepted exactly when the creator signs an unclaimed campaign
/// that is not cancelled yet; any other signer gets `NotCreator`.
pub proof fn lemma_cancel_accepts_exactly_the_creator(campaign: Campaign, signer: Pubkey)
    ensures
        cancel_campaign_error(campaign, signer) is None <==> {
            &&& signer@ == campaign.creator@
            &&& !campaign.claimed
            &&& !campaign.cancelled
        },
        signer@ != campaign.creator@ ==> cancel_campaign_error(campaign, signer) == Some(
            CrowdfundingError::NotCreator,
        ),
{
}

/// An accepted cancel cancels, whatever was raised, and changes nothing
/// else: from then on every donor can be refunded at any time and the
/// creator can never withdraw.
pub proof fn lemma_cancel_cancels(campaign: Campaign, signer: Pubkey, now: i64)
    ensures
        cancelled(campaign).cancelled,
        cancelled(campaign).raised == campaign.raised,
        cancelled(campaign).creator == campaign.creator,
        cancelled(campaign).goal == campaign.goal,
        cancelled(campaign).deadline == campaign.deadline,
        cancelled(campaign).claimed == campaign.claimed,
        cancelled(campaign).title == campaign.title,
        cancelled(campaign).description == campaign.description,
        refund_error(cancelled(campaign), now) is None,
        withdraw_error(cancelled(campaign), signer, now) is Some,
{
}

} // verus!
