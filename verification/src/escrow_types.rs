//! Records of the contribution ledger and the transfer tracker, and the spec
//! functions that aggregate them.

use vstd::prelude::*;
use crate::pk::Pk;

verus! {

/// How a contribution's value is moved.  Only the native-coin method is
/// transfer-verified by this ledger; the others are tracked but settled
/// off-chain.
#[derive(Debug)]
pub enum PaymentMethod {
    ICP,
    BankTransfer,
    Fawry,
    PayMob,
    Other(String),
}

impl Clone for PaymentMethod {
    fn clone(&self) -> (r: Self)
        ensures
            r == *self,
    {
        match self {
            PaymentMethod::ICP => PaymentMethod::ICP,
            PaymentMethod::BankTransfer => PaymentMethod::BankTransfer,
            PaymentMethod::Fawry => PaymentMethod::Fawry,
            PaymentMethod::PayMob => PaymentMethod::PayMob,
            PaymentMethod::Other(label) => PaymentMethod::Other(label.clone()),
        }
    }
}

impl PaymentMethod {
    /// Whether this is the native-coin method.
    pub fn is_icp(&self) -> (b: bool)
        ensures
            b <==> *self is ICP,
    {
        matches!(self, PaymentMethod::ICP)
    }
}

/// Escrow lifecycle of one contribution.
#[derive(Clone, Copy, PartialEq, Eq, Structural, Debug)]
pub enum EscrowStatus {
    /// Created, waiting for payment confirmation.
    Pending,
    /// Payment confirmed and held in escrow.
    Held,
    /// Paid out to the campaign owner.
    Released,
    /// Returned to the backer.
    Refunded,
}

/// Lifecycle of one native-coin transfer.
#[derive(Clone, Copy, PartialEq, Eq, Structural, Debug)]
pub enum ICPTransferStatus {
    Pending,
    Confirmed,
    Failed,
}

/// One pledge toward one campaign.
pub struct Contribution {
    /// Unique, monotonically assigned, never reused.
    pub id: u64,
    /// Reference to an externally owned campaign.
    pub campaign_id: u64,
    /// Identity of the contributor; immutable after creation.
    pub backer: Pk,
    /// Pledged value in the smallest transferable unit; positive, immutable.
    pub amount: u64,
    pub method: PaymentMethod,
    pub status: EscrowStatus,
    pub created_at_ns: u64,
    /// Set once, on the transition into `Held`.
    pub confirmed_at_ns: Option<u64>,
    /// Back-reference to a transfer record, only for the native-coin method.
    pub icp_transfer_id: Option<u64>,
}

/// The two records agree on every field; backer identities are compared by
/// their bytes.
pub open spec fn same_contribution(a: Contribution, b: Contribution) -> bool {
    &&& a.id == b.id
    &&& a.campaign_id == b.campaign_id
    &&& a.backer@ == b.backer@
    &&& a.amount == b.amount
    &&& a.method == b.method
    &&& a.status == b.status
    &&& a.created_at_ns == b.created_at_ns
    &&& a.confirmed_at_ns == b.confirmed_at_ns
    &&& a.icp_transfer_id == b.icp_transfer_id
}

impl Clone for Contribution {
    fn clone(&self) -> (r: Self)
        ensures
            same_contribution(r, *self),
    {
        Contribution {
            id: self.id,
            campaign_id: self.campaign_id,
            backer: self.backer.clone(),
            amount: self.amount,
            method: self.method.clone(),
            status: self.status,
            created_at_ns: self.created_at_ns,
            confirmed_at_ns: self.confirmed_at_ns,
            icp_transfer_id: self.icp_transfer_id,
        }
    }
}

/// A registered backer; only registered identities may contribute.
pub struct RegisteredUser {
    pub user_principal: Pk,
    pub name: String,
    pub email: String,
    pub registered_at_ns: u64,
}

/// The two records agree on every field.
pub open spec fn same_user(a: RegisteredUser, b: RegisteredUser) -> bool {
    &&& a.user_principal@ == b.user_principal@
    &&& a.name == b.name
    &&& a.email == b.email
    &&& a.registered_at_ns == b.registered_at_ns
}

impl Clone for RegisteredUser {
    fn clone(&self) -> (r: Self)
        ensures
            same_user(r, *self),
    {
        RegisteredUser {
            user_principal: self.user_principal.clone(),
            name: self.name.clone(),
            email: self.email.clone(),
            registered_at_ns: self.registered_at_ns,
        }
    }
}

/// Record of one native-coin value movement from a backer to the escrow
/// account.
pub struct ICPTransfer {
    pub id: u64,
    pub from: Pk,
    pub to: Pk,
    pub amount_e8s: u64,
    /// Carries the campaign id, for reconciliation.
    pub memo: u64,
    /// Filled once, when the movement is observed to complete.
    pub block_height: Option<u64>,
    pub status: ICPTransferStatus,
    pub created_at_ns: u64,
    pub confirmed_at_ns: Option<u64>,
}

/// The two records agree on every field.
pub open spec fn same_transfer(a: ICPTransfer, b: ICPTransfer) -> bool {
    &&& a.id == b.id
    &&& a.from@ == b.from@
    &&& a.to@ == b.to@
    &&& a.amount_e8s == b.amount_e8s
    &&& a.memo == b.memo
    &&& a.block_height == b.block_height
    &&& a.status == b.status
    &&& a.created_at_ns == b.created_at_ns
    &&& a.confirmed_at_ns == b.confirmed_at_ns
}

impl Clone for ICPTransfer {
    fn clone(&self) -> (r: Self)
        ensures
            same_transfer(r, *self),
    {
        ICPTransfer {
            id: self.id,
            from: self.from.clone(),
            to: self.to.clone(),
            amount_e8s: self.amount_e8s,
            memo: self.memo,
            block_height: self.block_height,
            status: self.status,
            created_at_ns: self.created_at_ns,
            confirmed_at_ns: self.confirmed_at_ns,
        }
    }
}

/// A snapshot of a campaign's funding facts, owned by the external metadata
/// authority and fetched per call; it is never cached across calls.
#[derive(Clone, Copy, PartialEq, Eq, Structural, Debug)]
pub struct CampaignMeta {
    pub campaign_id: u64,
    pub goal: u64,
    pub amount_raised: u64,
    /// Seconds since the epoch.
    pub end_date_secs: u64,
}

/// Outcome of one attempt to fetch a campaign's metadata from the external
/// authority.  The caller performs the fetch and hands the outcome in.
#[derive(Clone, Copy, PartialEq, Eq, Structural, Debug)]
pub enum MetaSnapshot {
    /// The authority could not be reached.
    Unavailable,
    /// The authority does not know the campaign id.
    Missing,
    /// The authority's current view of the campaign.
    Known(CampaignMeta),
}

/// Per-campaign totals by status, recomputed on demand from the ledger.
#[derive(Clone, Copy, PartialEq, Eq, Structural, Debug)]
pub struct EscrowSummary {
    pub campaign_id: u64,
    pub total_pending: u64,
    pub total_held: u64,
    pub total_released: u64,
    pub total_refunded: u64,
}

/// The credit notification owed to the external authority when a contribution
/// is confirmed into escrow.
#[derive(Clone, Copy, PartialEq, Eq, Structural, Debug)]
pub struct CreditNotice {
    pub campaign_id: u64,
    pub amount: u64,
}

/// Decision of a release settlement, taken before the payout notification is
/// sent.
#[derive(Clone, Copy, PartialEq, Eq, Structural, Debug)]
pub enum ReleasePlan {
    /// The campaign was already settled: nothing is held, something was
    /// released.  No payout notification is owed.
    AlreadySettled,
    /// The goal is reached: the caller must deliver the payout notification
    /// for this total, then commit the release.
    Payout { total_held: u64 },
}

/// Sum of all amounts in a ledger slice, as an unbounded integer.
pub open spec fn sum_amounts(s: Seq<Contribution>) -> int
    decreases s.len(),
{
    if s.len() == 0 {
        0
    } else {
        sum_amounts(s.drop_last()) + s.last().amount
    }
}

/// Whether a contribution belongs to the campaign and carries the status.
pub open spec fn in_status(c: Contribution, campaign_id: u64, status: EscrowStatus) -> bool {
    c.campaign_id == campaign_id && c.status == status
}

/// Sum of the amounts of all contributions that carry the status, over every
/// campaign.
pub open spec fn sum_with_status(s: Seq<Contribution>, status: EscrowStatus) -> int
    decreases s.len(),
{
    if s.len() == 0 {
        0
    } else {
        sum_with_status(s.drop_last(), status) + if s.last().status == status {
            s.last().amount as int
        } else {
            0
        }
    }
}

/// Sum of the amounts of the campaign's contributions that carry the status.
pub open spec fn sum_status(s: Seq<Contribution>, campaign_id: u64, status: EscrowStatus) -> int
    decreases s.len(),
{
    if s.len() == 0 {
        0
    } else {
        sum_status(s.drop_last(), campaign_id, status) + if in_status(
            s.last(),
            campaign_id,
            status,
        ) {
            s.last().amount as int
        } else {
            0
        }
    }
}

/// Sum of the amounts of all of the campaign's contributions.
pub open spec fn sum_campaign(s: Seq<Contribution>, campaign_id: u64) -> int
    decreases s.len(),
{
    if s.len() == 0 {
        0
    } else {
        sum_campaign(s.drop_last(), campaign_id) + if s.last().campaign_id == campaign_id {
            s.last().amount as int
        } else {
            0
        }
    }
}

/// An unbounded total, clamped to what a saturating 64-bit accumulation
/// reports.
pub open spec fn cap_u64(x: int) -> int {
    if x > u64::MAX {
        u64::MAX as int
    } else {
        x
    }
}

/// Whether some contribution of the campaign carries the status.
pub open spec fn has_status(s: Seq<Contribution>, campaign_id: u64, status: EscrowStatus) -> bool {
    exists|i: int| 0 <= i < s.len() && in_status(s[i], campaign_id, status)
}

/// How many of the campaign's contributions carry the status.
pub open spec fn count_status(s: Seq<Contribution>, campaign_id: u64, status: EscrowStatus) -> int
    decreases s.len(),
{
    if s.len() == 0 {
        0
    } else {
        count_status(s.drop_last(), campaign_id, status) + if in_status(
            s.last(),
            campaign_id,
            status,
        ) {
            1int
        } else {
            0
        }
    }
}

/// The record after a guarded status transition: only `status` changed.
pub open spec fn moved_to(pre: Contribution, post: Contribution, status: EscrowStatus) -> bool {
    &&& post.status == status
    &&& post.id == pre.id
    &&& post.campaign_id == pre.campaign_id
    &&& post.backer == pre.backer
    &&& post.amount == pre.amount
    &&& post.method == pre.method
    &&& post.created_at_ns == pre.created_at_ns
    &&& post.confirmed_at_ns == pre.confirmed_at_ns
    &&& post.icp_transfer_id == pre.icp_transfer_id
}

/// The record after confirmation into escrow: `status` became `Held` and the
/// confirmation time was set, once; nothing else changed.
pub open spec fn held_version(pre: Contribution, post: Contribution, now_ns: u64) -> bool {
    &&& post.status == EscrowStatus::Held
    &&& post.confirmed_at_ns == Some(now_ns)
    &&& post.id == pre.id
    &&& post.campaign_id == pre.campaign_id
    &&& post.backer == pre.backer
    &&& post.amount == pre.amount
    &&& post.method == pre.method
    &&& post.created_at_ns == pre.created_at_ns
    &&& post.icp_transfer_id == pre.icp_transfer_id
}

/// The ledger after a committed release of the campaign: every held entry of
/// the campaign moved to `Released`, in place, and nothing else changed.  A
/// record becomes `Released` only out of `Held`.
pub open spec fn release_applied(pre: Seq<Contribution>, post: Seq<Contribution>, campaign_id: u64) -> bool {
    &&& post.len() == pre.len()
    &&& forall|j: int|
        0 <= j < pre.len() ==> if in_status(#[trigger] pre[j], campaign_id, EscrowStatus::Held) {
            moved_to(pre[j], post[j], EscrowStatus::Released)
        } else {
            post[j] == pre[j]
        }
}

/// The ledger after a refund of the campaign: every pending or held entry of
/// the campaign moved to `Refunded`, in place, and nothing else changed.
pub open spec fn refund_applied(pre: Seq<Contribution>, post: Seq<Contribution>, campaign_id: u64) -> bool {
    &&& post.len() == pre.len()
    &&& forall|j: int|
        0 <= j < pre.len() ==> if in_status(#[trigger] pre[j], campaign_id, EscrowStatus::Pending)
            || in_status(pre[j], campaign_id, EscrowStatus::Held) {
            moved_to(pre[j], post[j], EscrowStatus::Refunded)
        } else {
            post[j] == pre[j]
        }
}

} // verus!
