//! Ledger-wide laws: conservation of funds across the status partition, and
//! what a committed release settlement leaves behind.

use vstd::prelude::*;
use crate::escrow::FundingLedger;
use crate::escrow_types::{
    Contribution, EscrowStatus, MetaSnapshot, count_status, has_status, in_status, moved_to,
    release_applied, sum_amounts, sum_campaign, sum_status, sum_with_status,
};

verus! {

/// Conservation: over the whole ledger, the pending, held, released and
/// refunded totals add up to the sum of every amount ever recorded.  No entry
/// is deleted and no amount changes, so the right-hand side is the sum of all
/// inserts.
pub proof fn lemma_conservation(s: Seq<Contribution>)
    ensures
        sum_with_status(s, EscrowStatus::Pending) + sum_with_status(s, EscrowStatus::Held)
            + sum_with_status(s, EscrowStatus::Released) + sum_with_status(
            s,
            EscrowStatus::Refunded,
        ) == sum_amounts(s),
    decreases s.len(),
{
    if s.len() > 0 {
        lemma_conservation(s.drop_last());
    }
}

/// Conservation within one campaign: the four per-status totals of the
/// campaign add up to the sum of every amount recorded for it.
pub proof fn lemma_conservation_by_campaign(s: Seq<Contribution>, campaign_id: u64)
    ensures
        sum_status(s, campaign_id, EscrowStatus::Pending) + sum_status(
            s,
            campaign_id,
            EscrowStatus::Held,
        ) + sum_status(s, campaign_id, EscrowStatus::Released) + sum_status(
            s,
            campaign_id,
            EscrowStatus::Refunded,
        ) == sum_campaign(s, campaign_id),
    decreases s.len(),
{
    if s.len() > 0 {
        lemma_conservation_by_campaign(s.drop_last(), campaign_id);
    }
}

/// A ledger slice with no held entry of the campaign has a held total of
/// zero.
pub proof fn lemma_sum_status_none(s: Seq<Contribution>, campaign_id: u64, status: EscrowStatus)
    requires
        forall|j: int| 0 <= j < s.len() ==> !in_status(#[trigger] s[j], campaign_id, status),
    ensures
        sum_status(s, campaign_id, status) == 0,
    decreases s.len(),
{
    if s.len() > 0 {
        assert(s.last() == s[s.len() - 1]);
        lemma_sum_status_none(s.drop_last(), campaign_id, status);
    }
}

/// A positive status count names a witness entry.
pub proof fn lemma_count_status_witness(s: Seq<Contribution>, campaign_id: u64, status: EscrowStatus)
    requires
        count_status(s, campaign_id, status) > 0,
    ensures
        has_status(s, campaign_id, status),
    decreases s.len(),
{
    if s.len() > 0 {
        if in_status(s.last(), campaign_id, status) {
            assert(in_status(s[s.len() - 1], campaign_id, status));
        } else {
            lemma_count_status_witness(s.drop_last(), campaign_id, status);
            let j = choose|j: int|
                0 <= j < s.drop_last().len() && in_status(
                    s.drop_last()[j],
                    campaign_id,
                    status,
                );
            assert(in_status(s[j], campaign_id, status));
        }
    }
}

/// A contribution becomes `Released` only out of `Held`, within the one
/// settlement that moved it: after a committed release, every released entry
/// either was already `Released` or was `Held` for the settled campaign.
pub proof fn lemma_release_only_from_held(
    pre: Seq<Contribution>,
    post: Seq<Contribution>,
    campaign_id: u64,
)
    requires
        release_applied(pre, post, campaign_id),
    ensures
        forall|j: int|
            0 <= j < post.len() && (#[trigger] post[j]).status is Released ==> pre[j].status
                is Released || (pre[j].status is Held && pre[j].campaign_id == campaign_id),
{
    assert forall|j: int|
        0 <= j < post.len() && (#[trigger] post[j]).status is Released implies pre[j].status
        is Released || (pre[j].status is Held && pre[j].campaign_id == campaign_id) by {
        assert(in_status(pre[j], campaign_id, EscrowStatus::Held) || !in_status(
            pre[j],
            campaign_id,
            EscrowStatus::Held,
        ));
    }
}

/// Release settlement is idempotent: once a release that moved at least one
/// entry has been committed, the campaign holds nothing and shows a released
/// entry, so a second `prepare_release` under the same policy returns the
/// already-settled plan — a zero count, no settlement marker, and no payout
/// notification owed.
pub proof fn lemma_release_idempotent(
    pre: FundingLedger,
    post: FundingLedger,
    campaign_id: u64,
    caller: Seq<u8>,
    meta: MetaSnapshot,
    now_ns: u64,
)
    requires
        release_applied(pre.contributions@, post.contributions@, campaign_id),
        count_status(pre.contributions@, campaign_id, EscrowStatus::Held) > 0,
        !post.spec_is_settling(campaign_id),
        caller == post.operator@,
        meta is Known,
        meta->Known_0.goal > 0,
        now_ns / 1_000_000_000 > meta->Known_0.end_date_secs,
    ensures
        post.held_total(campaign_id) == 0,
        post.held_total(campaign_id) < meta->Known_0.goal,
        has_status(post.contributions@, campaign_id, EscrowStatus::Released),
        post.spec_release_check(caller, campaign_id, meta, now_ns) is None,
{
    let pres = pre.contributions@;
    let posts = post.contributions@;
    assert forall|j: int| 0 <= j < posts.len() implies !in_status(
        #[trigger] posts[j],
        campaign_id,
        EscrowStatus::Held,
    ) by {
        assert(release_applied(pres, posts, campaign_id));
        if in_status(pres[j], campaign_id, EscrowStatus::Held) {
            assert(moved_to(pres[j], posts[j], EscrowStatus::Released));
        } else {
            assert(posts[j] == pres[j]);
        }
    }
    lemma_sum_status_none(posts, campaign_id, EscrowStatus::Held);
    lemma_count_status_witness(pres, campaign_id, EscrowStatus::Held);
    let j = choose|j: int|
        0 <= j < pres.len() && in_status(pres[j], campaign_id, EscrowStatus::Held);
    assert(in_status(posts[j], campaign_id, EscrowStatus::Released));
}

} // verus!

