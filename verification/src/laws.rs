//! Properties of the program as a whole, stated over the spec functions that
//! the instruction handlers' contracts use.
use vstd::prelude::*;

use crate::instructions::cancel_campaign::{cancel_campaign_error, cancelled};
use crate::instructions::contribute::{contribute_error, contributed, contribution_added};
use crate::instructions::create_campaign::{create_campaign_error, new_campaign};
use crate::instructions::refund::{contribution_cleared, refund_allowed, refund_error, refunded};
use crate::instructions::withdraw::{claimed, withdraw_error};
use crate::state::{Campaign, Contribution, Pubkey};

verus! {

/// Sum of the amounts recorded in a campaign's contribution accounts.
pub open spec fn total(records: Seq<Contribution>) -> int
    decreases records.len(),
{
    if records.len() == 0 {
        0
    } else {
        total(records.drop_last()) + records.last().amount
    }
}

/// The campaign's `raised` is the sum of its donors' records.
pub open spec fn ledger(campaign: Campaign, records: Seq<Contribution>) -> bool {
    campaign.raised == total(records)
}

/// Until the creator claims the funds, the vault holds at least what was
/// raised.
pub open spec fn vault_covers(campaign: Campaign, vault: nat) -> bool {
    !campaign.claimed ==> vault >= campaign.raised
}

/// The state invariant of a campaign with its donors' records and its vault
/// balance: well formed, `raised` equal to the sum of the records, and the
/// vault covering `raised` until the payout.
pub open spec fn solvent(campaign: Campaign, records: Seq<Contribution>, vault: nat) -> bool {
    &&& campaign.well_formed()
    &&& ledger(campaign, records)
    &&& vault_covers(campaign, vault)
}

proof fn lemma_total_update(records: Seq<Contribution>, i: int, record: Contribution)
    requires
        0 <= i < records.len(),
    ensures
        total(records.update(i, record)) == total(records) - records[i].amount + record.amount,
    decreases records.len(),
{
    let updated = records.update(i, record);
    if i == records.len() - 1 {
        assert(updated.drop_last() =~= records.drop_last());
    } else {
        lemma_total_update(records.drop_last(), i, record);
        assert(updated.drop_last() =~= records.drop_last().update(i, record));
    }
}

proof fn lemma_record_le_total(records: Seq<Contribution>, i: int)
    requires
        0 <= i < records.len(),
    ensures
        records[i].amount <= total(records),
        total(records) >= 0,
    decreases records.len(),
{
    lemma_total_nonnegative(records.drop_last());
    if i < records.len() - 1 {
        lemma_record_le_total(records.drop_last(), i);
    }
}

proof fn lemma_total_nonnegative(records: Seq<Contribution>)
    ensures
        total(records) >= 0,
    decreases records.len(),
{
    if records.len() > 0 {
        lemma_total_nonnegative(records.drop_last());
    }
}

/// A campaign that the create instruction accepts is well formed, fits the
/// space of its account, is neither claimed nor cancelled, and is solvent
/// with no donor records, whatever its vault holds.
pub proof fn lemma_created_campaign_is_solvent(
    creator: Pubkey,
    goal: u64,
    deadline: i64,
    title: String,
    description: String,
    now: i64,
    vault: nat,
)
    requires
        create_campaign_error(goal, deadline, title@, description@, now) is None,
    ensures
        new_campaign(creator, goal, deadline, title, description).serialized_len()
            <= Campaign::INIT_SPACE,
        !new_campaign(creator, goal, deadline, title, description).claimed,
        !new_campaign(creator, goal, deadline, title, description).cancelled,
        solvent(new_campaign(creator, goal, deadline, title, description), Seq::empty(), vault),
{
}

/// A donor account opened by a first contribution holds zero, so adding it
/// to the records keeps the ledger.
pub proof fn lemma_new_record_keeps_ledger(
    campaign: Campaign,
    records: Seq<Contribution>,
    record: Contribution,
)
    requires
        ledger(campaign, records),
        record.amount == 0,
    ensures
        ledger(campaign, records.push(record)),
{
    assert(records.push(record).drop_last() =~= records);
}

/// Contribute, accepted or refused, keeps the ledger and the vault
/// coverage, and keeps the campaign well formed. When accepted it adds
/// exactly the amount moved into the vault to `raised` and to the donor's
/// record (record `i`); when refused nothing changes.
pub proof fn lemma_contribute_keeps_invariants(
    campaign: Campaign,
    records: Seq<Contribution>,
    i: int,
    vault: nat,
    campaign_key: Pubkey,
    donor: Pubkey,
    amount: u64,
    now: i64,
)
    requires
        ledger(campaign, records),
        vault_covers(campaign, vault),
        0 <= i < records.len(),
        contribute_error(campaign, amount, now) is None ==> {
            &&& campaign.raised + amount <= u64::MAX
            &&& records[i].amount + amount <= u64::MAX
        },
    ensures
        ({
            let accepted = contribute_error(campaign, amount, now) is None;
            let after = if accepted {
                contributed(campaign, amount)
            } else {
                campaign
            };
            let after_records = if accepted {
                records.update(i, contribution_added(records[i], campaign_key, donor, amount))
            } else {
                records
            };
            let after_vault: nat = if accepted {
                (vault + amount) as nat
            } else {
                vault
            };
            &&& ledger(after, after_records)
            &&& vault_covers(after, after_vault)
            &&& campaign.well_formed() ==> after.well_formed()
            &&& accepted ==> after.raised == campaign.raised + amount
        }),
{
    if contribute_error(campaign, amount, now) is None {
        lemma_total_update(
            records,
            i,
            contribution_added(records[i], campaign_key, donor, amount),
        );
    }
}

/// Whenever a refund is allowed, the ledger guarantees that the donor's
/// record does not exceed `raised`. Refund, accepted or refused, keeps the
/// ledger and the well-formedness; an accepted refund takes exactly the
/// refunded amount off `raised` and clears the donor's record. On a solvent
/// campaign the vault can pay the refund and still covers `raised` after it.
pub proof fn lemma_refund_keeps_invariants(
    campaign: Campaign,
    records: Seq<Contribution>,
    i: int,
    vault: nat,
    now: i64,
)
    requires
        ledger(campaign, records),
        0 <= i < records.len(),
    ensures
        refund_allowed(campaign, now) ==> records[i].amount <= campaign.raised,
        ({
            let allowed = refund_allowed(campaign, now);
            let paid: nat = if allowed {
                records[i].amount as nat
            } else {
                0
            };
            let after = if allowed {
                refunded(campaign, records[i].amount)
            } else {
                campaign
            };
            let after_records = if allowed {
                records.update(i, contribution_cleared(records[i]))
            } else {
                records
            };
            &&& ledger(after, after_records)
            &&& campaign.well_formed() ==> after.well_formed()
            &&& allowed ==> after.raised == campaign.raised - paid
            &&& allowed ==> after_records[i].amount == 0
            &&& solvent(campaign, records, vault) ==> paid <= vault && vault_covers(
                after,
                (vault - paid) as nat,
            )
        }),
{
    lemma_record_le_total(records, i);
    if refund_allowed(campaign, now) {
        lemma_total_update(records, i, contribution_cleared(records[i]));
    }
}

/// A donor entitled to a refund always gets paid: on a solvent campaign
/// where the refund is allowed, the refund is accepted, the handler's
/// precondition holds, and the vault holds the donor's whole record.
pub proof fn lemma_allowed_refund_is_payable(
    campaign: Campaign,
    records: Seq<Contribution>,
    i: int,
    vault: nat,
    now: i64,
)
    requires
        solvent(campaign, records, vault),
        0 <= i < records.len(),
        refund_allowed(campaign, now),
    ensures
        refund_error(campaign, now) is None,
        !campaign.claimed,
        records[i].amount <= campaign.raised,
        records[i].amount <= vault,
{
    lemma_record_le_total(records, i);
}

/// Withdraw, accepted or refused, keeps the ledger, the vault coverage and
/// the well-formedness. An accepted withdraw empties the vault and leaves
/// `raised` and the donors' records as they were.
pub proof fn lemma_withdraw_keeps_invariants(
    campaign: Campaign,
    records: Seq<Contribution>,
    vault: nat,
    signer: Pubkey,
    now: i64,
)
    requires
        ledger(campaign, records),
        vault_covers(campaign, vault),
    ensures
        ({
            let accepted = withdraw_error(campaign, signer, now) is None;
            let after = if accepted {
                claimed(campaign)
            } else {
                campaign
            };
            let after_vault: nat = if accepted {
                0
            } else {
                vault
            };
            &&& ledger(after, records)
            &&& vault_covers(after, after_vault)
            &&& campaign.well_formed() ==> after.well_formed()
        }),
{
}

/// Cancel, accepted or refused, keeps the ledger, the vault coverage and the
/// well-formedness; it moves no lamports and changes no record.
pub proof fn lemma_cancel_keeps_invariants(
    campaign: Campaign,
    records: Seq<Contribution>,
    vault: nat,
    signer: Pubkey,
)
    requires
        ledger(campaign, records),
        vault_covers(campaign, vault),
    ensures
        ({
            let after = if cancel_campaign_error(campaign, signer) is None {
                cancelled(campaign)
            } else {
                campaign
            };
            &&& ledger(after, records)
            &&& vault_covers(after, vault)
            &&& campaign.well_formed() ==> after.well_formed()
        }),
{
}

/// The creator payout and the donor refunds exclude each other: in no state
/// of a campaign are both a withdraw and a refund accepted, at any times.
pub proof fn lemma_payout_and_refund_exclusive(
    campaign: Campaign,
    signer: Pubkey,
    withdraw_time: i64,
    refund_time: i64,
)
    ensures
        !(withdraw_error(campaign, signer, withdraw_time) is None && refund_error(
            campaign,
            refund_time,
        ) is None),
{
}

/// The campaign lifecycle: once the deadline has passed, a campaign that
/// reached its goal pays its creator (unless cancelled or already claimed),
/// one that missed its goal refunds every donor, and a cancelled campaign
/// refunds every donor at any time.
pub proof fn lemma_lifecycle_outcomes(campaign: Campaign, now: i64)
    ensures
        now >= campaign.deadline && campaign.raised >= campaign.goal && !campaign.claimed
            && !campaign.cancelled ==> withdraw_error(campaign, campaign.creator, now) is None,
        now >= campaign.deadline && campaign.raised < campaign.goal ==> refund_error(
            campaign,
            now,
        ) is None,
        campaign.cancelled ==> refund_error(campaign, now) is None,
        now < campaign.deadline && !campaign.cancelled ==> refund_error(campaign, now) is Some,
{
}

/// Only the campaign's creator can withdraw its funds or cancel it.
pub proof fn lemma_only_creator_withdraws_or_cancels(
    campaign: Campaign,
    signer: Pubkey,
    now: i64,
)
    ensures
        withdraw_error(campaign, signer, now) is None ==> signer@ == campaign.creator@,
        cancel_campaign_error(campaign, signer) is None ==> signer@ == campaign.creator@,
{
}

/// Once the creator has claimed the funds, every later withdraw, refund and
/// cancel is refused.
pub proof fn lemma_claim_is_final(campaign: Campaign, signer: Pubkey, now: i64)
    requires
        campaign.well_formed(),
        campaign.claimed,
    ensures
        withdraw_error(campaign, signer, now) is Some,
        refund_error(campaign, now) is Some,
        cancel_campaign_error(campaign, signer) is Some,
{
}

/// A claimed campaign stays claimed through every instruction that succeeds
/// on it.
pub proof fn lemma_claimed_stays_claimed(campaign: Campaign, amount: u64)
    requires
        campaign.claimed,
    ensures
        contributed(campaign, amount).claimed,
        refunded(campaign, amount).claimed,
        claimed(campaign).claimed,
        cancelled(campaign).claimed,
{
}

/// A cancelled campaign stays cancelled: it takes no more contributions,
/// never pays the creator, cannot be cancelled again, and refunds its donors
/// at any time.
pub proof fn lemma_cancel_is_final(
    campaign: Campaign,
    signer: Pubkey,
    amount: u64,
    now: i64,
)
    requires
        campaign.cancelled,
    ensures
        contribute_error(campaign, amount, now) == Some(
            crate::error::CrowdfundingError::CampaignCancelled,
        ),
        withdraw_error(campaign, signer, now) is Some,
        cancel_campaign_error(campaign, signer) is Some,
        refund_allowed(campaign, now),
        refunded(campaign, amount).cancelled,
{
}

/// A campaign whose deadline passed short of its goal stays failed as time
/// goes on: it takes no more contributions, its creator can never withdraw,
/// refunds and a cancel leave it failed, and refunds stay allowed.
pub proof fn lemma_failure_is_final(
    campaign: Campaign,
    now: i64,
    later: i64,
    signer: Pubkey,
    amount: u64,
    refund: u64,
)
    requires
        campaign.failed(now),
        now <= later,
        refund <= campaign.raised,
    ensures
        contribute_error(campaign, amount, later) is Some,
        withdraw_error(campaign, signer, later) == Some(
            crate::error::CrowdfundingError::GoalNotReached,
        ),
        refund_allowed(campaign, later),
        refunded(campaign, refund).failed(later),
        cancelled(campaign).failed(later),
{
}

} // verus!
