//! The funding ledger: contribution escrow state machine and settlement
//! engine.
//!
//! The ledger owns the contribution records, the registered users and the
//! native-coin transfer records.  All mutation goes through the guarded
//! transitions below; no caller can set a status directly.  External facts (a
//! campaign's metadata snapshot, the clock, the caller's identity) are handed
//! in as plain values, and the notifications owed to the external authority
//! are handed back as plain values, so that every decision in between is
//! verified.

use vstd::prelude::*;
use crate::errors::FundError;
use crate::escrow_types::{
    Contribution, CreditNotice, EscrowStatus, EscrowSummary, ICPTransfer, ICPTransferStatus,
    MetaSnapshot, PaymentMethod, RegisteredUser, ReleasePlan, cap_u64, count_status, has_status,
    held_version, in_status, moved_to, refund_applied, release_applied, same_contribution,
    same_transfer, same_user, sum_status,
};
use crate::pk::Pk;

verus! {

/// Placeholder settlement reference recorded when the synchronous rail
/// confirms a transfer; a production rail would report a real block height.
pub const PLACEHOLDER_BLOCK_HEIGHT: u64 = 12345;

/// The authoritative store of contributions, users and transfers, plus the
/// settlement guard.
pub struct FundingLedger {
    /// The designated settlement-operator identity: only it may confirm
    /// payments and settle campaigns.
    pub operator: Pk,
    /// The identity that holds escrowed native-coin value.
    pub escrow_account: Pk,
    /// Contribution record with id `i + 1` sits at index `i`; never deleted.
    pub contributions: Vec<Contribution>,
    /// Registered users, one record per identity.
    pub users: Vec<RegisteredUser>,
    /// Transfer record with id `i + 1` sits at index `i`; never deleted.
    pub transfers: Vec<ICPTransfer>,
    /// Campaigns with a release settlement in progress: the guard that
    /// serializes settlement per campaign.
    pub settling: Vec<u64>,
}

impl FundingLedger {
    /// Structural invariant: ids are positions, amounts are positive, a
    /// transfer link is present only on native-coin contributions and points
    /// at a real transfer record, identities are registered once, and the
    /// settlement guard holds each campaign at most once.
    pub open spec fn wf(self) -> bool {
        &&& forall|i: int|
            0 <= i < self.contributions@.len() ==> (#[trigger] self.contributions@[i]).id == i + 1
        &&& forall|i: int|
            0 <= i < self.contributions@.len() ==> (#[trigger] self.contributions@[i]).amount > 0
        &&& forall|i: int|
            0 <= i < self.contributions@.len() ==> ((#[trigger] self.contributions@[i]).icp_transfer_id is Some
                ==> self.contributions@[i].method is ICP && 1 <= self.contributions@[i].icp_transfer_id->0
                    <= self.transfers@.len())
        &&& forall|i: int|
            0 <= i < self.contributions@.len() ==> (!((#[trigger] self.contributions@[i]).method is ICP)
                ==> self.contributions@[i].icp_transfer_id is None)
        &&& forall|i: int|
            0 <= i < self.transfers@.len() ==> (#[trigger] self.transfers@[i]).id == i + 1
        &&& forall|i: int, j: int|
            0 <= i < j < self.users@.len() ==> (#[trigger] self.users@[i]).user_principal@
                != (#[trigger] self.users@[j]).user_principal@
        &&& forall|i: int, j: int|
            #![trigger self.settling@[i], self.settling@[j]]
            0 <= i < j < self.settling@.len() ==> self.settling@[i] != self.settling@[j]
    }

    /// Whether the identity has a registered-user record.
    pub open spec fn spec_is_registered(self, who: Seq<u8>) -> bool {
        exists|i: int| 0 <= i < self.users@.len() && (#[trigger] self.users@[i]).user_principal@ == who
    }

    /// Whether a release settlement for the campaign is in progress.
    pub open spec fn spec_is_settling(self, campaign_id: u64) -> bool {
        self.settling@.contains(campaign_id)
    }

    /// The exact held total of the campaign, as an unbounded integer.
    pub open spec fn held_total(self, campaign_id: u64) -> int {
        sum_status(self.contributions@, campaign_id, EscrowStatus::Held)
    }

    /// An empty ledger under the given settlement operator and escrow
    /// account.
    pub fn new(operator: Pk, escrow_account: Pk) -> (r: Self)
        ensures
            r.wf(),
            r.operator == operator,
            r.escrow_account == escrow_account,
            r.contributions@ =~= Seq::<Contribution>::empty(),
            r.users@ =~= Seq::<RegisteredUser>::empty(),
            r.transfers@ =~= Seq::<ICPTransfer>::empty(),
            r.settling@ =~= Seq::<u64>::empty(),
    {
        FundingLedger {
            operator,
            escrow_account,
            contributions: Vec::new(),
            users: Vec::new(),
            transfers: Vec::new(),
            settling: Vec::new(),
        }
    }

    /// Index of the identity's user record, if any.
    fn find_user(&self, who: &Pk) -> (r: Option<usize>)
        ensures
            match r {
                Some(i) => i < self.users@.len() && self.users@[i as int].user_principal@ == who@,
                None => !self.spec_is_registered(who@),
            },
    {
        let n = self.users.len();
        let mut i: usize = 0;
        while i < n
            invariant
                n == self.users@.len(),
                0 <= i <= n,
                forall|j: int| 0 <= j < i ==> (#[trigger] self.users@[j]).user_principal@ != who@,
            decreases n - i,
        {
            if self.users[i].user_principal.eq_pk(who) {
                return Some(i);
            }
            i += 1;
        }
        None
    }

    /// Whether the identity may contribute.
    pub fn is_registered(&self, who: &Pk) -> (b: bool)
        ensures
            b == self.spec_is_registered(who@),
    {
        self.find_user(who).is_some()
    }

    /// The identity's registered profile, if any.
    pub fn get_my_profile(&self, who: &Pk) -> (r: Option<RegisteredUser>)
        ensures
            match r {
                Some(u) => exists|i: int|
                    0 <= i < self.users@.len() && (#[trigger] self.users@[i]).user_principal@ == who@
                        && same_user(u, self.users@[i]),
                None => !self.spec_is_registered(who@),
            },
    {
        match self.find_user(who) {
            Some(i) => Some(self.users[i].clone()),
            None => None,
        }
    }

    /// Registers the identity, or overwrites its record: fails only on an
    /// empty name or email.  Idempotent by identity.
    pub fn register_user(&mut self, caller: &Pk, name: String, email: String, now_ns: u64) -> (r:
        Result<(), FundError>)
        requires
            old(self).wf(),
        ensures
            final(self).wf(),
            final(self).operator == old(self).operator,
            final(self).escrow_account == old(self).escrow_account,
            final(self).contributions@ == old(self).contributions@,
            final(self).transfers@ == old(self).transfers@,
            final(self).settling@ == old(self).settling@,
            name@.len() == 0 || email@.len() == 0 ==> r == Err::<(), FundError>(
                FundError::InvalidInput,
            ) && final(self).users@ == old(self).users@,
            name@.len() > 0 && email@.len() > 0 ==> {
                &&& r == Ok::<(), FundError>(())
                &&& final(self).spec_is_registered(caller@)
                &&& final(self).users@.len() == old(self).users@.len() + (if old(
                    self,
                ).spec_is_registered(caller@) {
                    0int
                } else {
                    1int
                })
                &&& forall|j: int|
                    0 <= j < old(self).users@.len() && (#[trigger] old(
                        self,
                    ).users@[j]).user_principal@ != caller@ ==> final(self).users@[j] == old(
                        self,
                    ).users@[j]
                &&& exists|k: int|
                    0 <= k < final(self).users@.len() && {
                        let u = #[trigger] final(self).users@[k];
                        &&& u.user_principal@ == caller@
                        &&& u.name == name
                        &&& u.email == email
                        &&& u.registered_at_ns == now_ns
                    }
            },
    {
        if name.as_str().is_empty() || email.as_str().is_empty() {
            return Err(FundError::InvalidInput);
        }
        let record = RegisteredUser {
            user_principal: caller.clone(),
            name,
            email,
            registered_at_ns: now_ns,
        };
        match self.find_user(caller) {
            Some(i) => {
                let ghost prev = self.users@;
                let slot = user_at_mut(&mut self.users, i);
                *slot = record;
                proof {
                    assert(self.users@ =~= prev.update(i as int, self.users@[i as int]));
                    assert(self.users@[i as int].user_principal@ == caller@);
                    assert(self.spec_is_registered(caller@));
                }
            },
            None => {
                self.users.push(record);
                proof {
                    let k = self.users@.len() - 1;
                    assert(self.users@[k].user_principal@ == caller@);
                    assert(self.spec_is_registered(caller@));
                }
            },
        }
        Ok(())
    }

    /// The id the next contribution will receive.
    pub fn next_contribution_id(&self) -> (r: u64)
        requires
            self.contributions@.len() < u64::MAX,
        ensures
            r == self.contributions@.len() + 1,
    {
        (self.contributions.len() as u64) + 1
    }

    /// The id the next transfer will receive.
    pub fn next_transfer_id(&self) -> (r: u64)
        requires
            self.transfers@.len() < u64::MAX,
        ensures
            r == self.transfers@.len() + 1,
    {
        (self.transfers.len() as u64) + 1
    }

    /// The guard on creating a contribution: which error, if any, the checks
    /// report, in the order they are made.
    pub open spec fn spec_contribute_check(
        self,
        backer: Seq<u8>,
        amount: u64,
        meta: MetaSnapshot,
        now_ns: u64,
    ) -> Option<FundError> {
        if amount == 0 {
            Some(FundError::InvalidInput)
        } else if !self.spec_is_registered(backer) {
            Some(FundError::Unauthorized)
        } else if meta is Unavailable {
            Some(FundError::UpstreamUnavailable)
        } else if meta is Missing {
            Some(FundError::NotFound)
        } else if now_ns / 1_000_000_000 > meta->Known_0.end_date_secs {
            Some(FundError::CampaignEnded)
        } else {
            None
        }
    }

    /// Starts a contribution in `Pending`: the caller must be registered and
    /// the campaign must exist upstream and not have ended.  The metadata
    /// snapshot is the outcome of the caller's fetch from the external
    /// authority.  Returns the new contribution id.
    pub fn contribute(
        &mut self,
        backer: &Pk,
        campaign_id: u64,
        amount: u64,
        method: PaymentMethod,
        meta: &MetaSnapshot,
        now_ns: u64,
    ) -> (r: Result<u64, FundError>)
        requires
            old(self).wf(),
            old(self).contributions@.len() < u64::MAX,
        ensures
            final(self).wf(),
            final(self).operator == old(self).operator,
            final(self).escrow_account == old(self).escrow_account,
            final(self).users@ == old(self).users@,
            final(self).transfers@ == old(self).transfers@,
            final(self).settling@ == old(self).settling@,
            match old(self).spec_contribute_check(backer@, amount, *meta, now_ns) {
                Some(e) => r == Err::<u64, FundError>(e) && final(self).contributions@ == old(
                    self,
                ).contributions@,
                None => {
                    &&& r == Ok::<u64, FundError>((old(self).contributions@.len() + 1) as u64)
                    &&& final(self).contributions@.len() == old(self).contributions@.len() + 1
                    &&& final(self).contributions@.drop_last() == old(self).contributions@
                    &&& {
                        let c = final(self).contributions@.last();
                        &&& c.id == old(self).contributions@.len() + 1
                        &&& c.campaign_id == campaign_id
                        &&& c.backer@ == backer@
                        &&& c.amount == amount
                        &&& c.method == method
                        &&& c.status == EscrowStatus::Pending
                        &&& c.created_at_ns == now_ns
                        &&& c.confirmed_at_ns is None
                        &&& c.icp_transfer_id is None
                    }
                },
            },
    {
        if amount == 0 {
            return Err(FundError::InvalidInput);
        }
        if !self.is_registered(backer) {
            return Err(FundError::Unauthorized);
        }
        let m = match meta {
            MetaSnapshot::Unavailable => {
                return Err(FundError::UpstreamUnavailable);
            },
            MetaSnapshot::Missing => {
                return Err(FundError::NotFound);
            },
            MetaSnapshot::Known(m) => *m,
        };
        if now_ns / 1_000_000_000 > m.end_date_secs {
            return Err(FundError::CampaignEnded);
        }
        let id = (self.contributions.len() as u64) + 1;
        let record = Contribution {
            id,
            campaign_id,
            backer: backer.clone(),
            amount,
            method,
            status: EscrowStatus::Pending,
            created_at_ns: now_ns,
            confirmed_at_ns: None,
            icp_transfer_id: None,
        };
        self.contributions.push(record);
        proof {
            assert(self.contributions@.drop_last() =~= old(self).contributions@);
        }
        Ok(id)
    }

    /// Records a native-coin transfer from the backer to the escrow holder
    /// and reports the rail's confirmation.  The rail in use confirms
    /// synchronously with a placeholder settlement reference; a production
    /// rail would leave the record `Pending` until an asynchronous
    /// confirmation arrives, without a change for callers.  A rail failure
    /// sets `Failed` on the record rather than raising.  Returns the transfer
    /// id.
    pub fn initiate_icp_transfer(
        &mut self,
        from: &Pk,
        to: &Pk,
        amount_e8s: u64,
        memo: u64,
        now_ns: u64,
    ) -> (tid: u64)
        requires
            old(self).wf(),
            old(self).transfers@.len() < u64::MAX,
        ensures
            final(self).wf(),
            final(self).operator == old(self).operator,
            final(self).escrow_account == old(self).escrow_account,
            final(self).users@ == old(self).users@,
            final(self).contributions@ == old(self).contributions@,
            final(self).settling@ == old(self).settling@,
            tid == old(self).transfers@.len() + 1,
            final(self).transfers@.len() == old(self).transfers@.len() + 1,
            final(self).transfers@.drop_last() == old(self).transfers@,
            ({
                let t = final(self).transfers@.last();
                &&& t.id == tid
                &&& t.from@ == from@
                &&& t.to@ == to@
                &&& t.amount_e8s == amount_e8s
                &&& t.memo == memo
                &&& t.block_height == Some(PLACEHOLDER_BLOCK_HEIGHT)
                &&& t.status == ICPTransferStatus::Confirmed
                &&& t.created_at_ns == now_ns
                &&& t.confirmed_at_ns == Some(now_ns)
            }),
    {
        let tid = (self.transfers.len() as u64) + 1;
        let record = ICPTransfer {
            id: tid,
            from: from.clone(),
            to: to.clone(),
            amount_e8s,
            memo,
            block_height: Some(PLACEHOLDER_BLOCK_HEIGHT),
            status: ICPTransferStatus::Confirmed,
            created_at_ns: now_ns,
            confirmed_at_ns: Some(now_ns),
        };
        self.transfers.push(record);
        proof {
            assert(self.transfers@.drop_last() =~= old(self).transfers@);
        }
        tid
    }

    /// Starts a native-coin contribution: the same guards as `contribute`,
    /// plus a transfer record from the backer to the escrow account, linked
    /// from the new `Pending` contribution.  Returns the new contribution id.
    pub fn contribute_icp(
        &mut self,
        backer: &Pk,
        campaign_id: u64,
        amount_e8s: u64,
        meta: &MetaSnapshot,
        now_ns: u64,
    ) -> (r: Result<u64, FundError>)
        requires
            old(self).wf(),
            old(self).contributions@.len() < u64::MAX,
            old(self).transfers@.len() < u64::MAX,
        ensures
            final(self).wf(),
            final(self).operator == old(self).operator,
            final(self).escrow_account == old(self).escrow_account,
            final(self).users@ == old(self).users@,
            final(self).settling@ == old(self).settling@,
            match old(self).spec_contribute_check(backer@, amount_e8s, *meta, now_ns) {
                Some(e) => r == Err::<u64, FundError>(e) && final(self).contributions@ == old(
                    self,
                ).contributions@ && final(self).transfers@ == old(self).transfers@,
                None => {
                    &&& r == Ok::<u64, FundError>((old(self).contributions@.len() + 1) as u64)
                    &&& final(self).contributions@.len() == old(self).contributions@.len() + 1
                    &&& final(self).contributions@.drop_last() == old(self).contributions@
                    &&& final(self).transfers@.len() == old(self).transfers@.len() + 1
                    &&& final(self).transfers@.drop_last() == old(self).transfers@
                    &&& {
                        let c = final(self).contributions@.last();
                        let t = final(self).transfers@.last();
                        &&& c.id == old(self).contributions@.len() + 1
                        &&& c.campaign_id == campaign_id
                        &&& c.backer@ == backer@
                        &&& c.amount == amount_e8s
                        &&& c.method is ICP
                        &&& c.status == EscrowStatus::Pending
                        &&& c.created_at_ns == now_ns
                        &&& c.confirmed_at_ns is None
                        &&& c.icp_transfer_id == Some((old(self).transfers@.len() + 1) as u64)
                        &&& t.id == old(self).transfers@.len() + 1
                        &&& t.from@ == backer@
                        &&& t.to@ == old(self).escrow_account@
                        &&& t.amount_e8s == amount_e8s
                        &&& t.memo == campaign_id
                        &&& t.status == ICPTransferStatus::Confirmed
                    }
                },
            },
    {
        if amount_e8s == 0 {
            return Err(FundError::InvalidInput);
        }
        if !self.is_registered(backer) {
            return Err(FundError::Unauthorized);
        }
        let m = match meta {
            MetaSnapshot::Unavailable => {
                return Err(FundError::UpstreamUnavailable);
            },
            MetaSnapshot::Missing => {
                return Err(FundError::NotFound);
            },
            MetaSnapshot::Known(m) => *m,
        };
        if now_ns / 1_000_000_000 > m.end_date_secs {
            return Err(FundError::CampaignEnded);
        }
        let to = self.escrow_account.clone();
        let transfer_id = self.initiate_icp_transfer(backer, &to, amount_e8s, campaign_id, now_ns);
        let id = (self.contributions.len() as u64) + 1;
        let record = Contribution {
            id,
            campaign_id,
            backer: backer.clone(),
            amount: amount_e8s,
            method: PaymentMethod::ICP,
            status: EscrowStatus::Pending,
            created_at_ns: now_ns,
            confirmed_at_ns: None,
            icp_transfer_id: Some(transfer_id),
        };
        self.contributions.push(record);
        proof {
            assert(self.contributions@.drop_last() =~= old(self).contributions@);
        }
        Ok(id)
    }

    /// The status of a transfer record.
    pub fn check_icp_transfer_status(&self, transfer_id: u64) -> (r: Result<
        ICPTransferStatus,
        FundError,
    >)
        ensures
            1 <= transfer_id <= self.transfers@.len() ==> r == Ok::<ICPTransferStatus, FundError>(
                self.transfers@[transfer_id - 1].status,
            ),
            !(1 <= transfer_id <= self.transfers@.len()) ==> r == Err::<
                ICPTransferStatus,
                FundError,
            >(FundError::NotFound),
    {
        if transfer_id == 0 || transfer_id > self.transfers.len() as u64 {
            return Err(FundError::NotFound);
        }
        Ok(self.transfers[(transfer_id - 1) as usize].status)
    }

    /// A snapshot of one contribution record.
    pub fn get_contribution(&self, id: u64) -> (r: Option<Contribution>)
        ensures
            1 <= id <= self.contributions@.len() ==> r is Some && same_contribution(
                r->0,
                self.contributions@[id - 1],
            ),
            !(1 <= id <= self.contributions@.len()) ==> r is None,
    {
        if id == 0 || id > self.contributions.len() as u64 {
            return None;
        }
        Some(self.contributions[(id - 1) as usize].clone())
    }

    /// The guard on confirming a contribution into escrow: which error, if
    /// any, the checks report, in the order they are made.  Only the
    /// settlement operator may confirm; the contribution must exist and be
    /// `Pending`, its campaign must not be under settlement, and a linked
    /// native-coin transfer must be confirmed by the rail.
    pub open spec fn spec_confirm_check(self, caller: Seq<u8>, contribution_id: u64) -> Option<
        FundError,
    > {
        if caller != self.operator@ {
            Some(FundError::Unauthorized)
        } else if !(1 <= contribution_id <= self.contributions@.len()) {
            Some(FundError::NotFound)
        } else {
            let c = self.contributions@[contribution_id - 1];
            if !(c.status is Pending) {
                Some(FundError::InvalidState)
            } else if self.spec_is_settling(c.campaign_id) {
                Some(FundError::InvalidState)
            } else if c.icp_transfer_id is Some && !(self.transfers@[c.icp_transfer_id->0
                - 1].status is Confirmed) {
                Some(FundError::InvalidState)
            } else {
                None
            }
        }
    }

    /// Validates a confirmation without mutating, and reports the credit
    /// notification owed to the external authority.  The caller delivers the
    /// notification, then commits with `confirm_payment`, which re-validates.
    pub fn prepare_confirm(&self, caller: &Pk, contribution_id: u64) -> (r: Result<
        CreditNotice,
        FundError,
    >)
        requires
            self.wf(),
        ensures
            match self.spec_confirm_check(caller@, contribution_id) {
                Some(e) => r == Err::<CreditNotice, FundError>(e),
                None => r == Ok::<CreditNotice, FundError>(
                    (CreditNotice {
                        campaign_id: self.contributions@[contribution_id - 1].campaign_id,
                        amount: self.contributions@[contribution_id - 1].amount,
                    }),
                ),
            },
    {
        if !caller.eq_pk(&self.operator) {
            return Err(FundError::Unauthorized);
        }
        if contribution_id == 0 || contribution_id > self.contributions.len() as u64 {
            return Err(FundError::NotFound);
        }
        let idx = (contribution_id - 1) as usize;
        let status = self.contributions[idx].status;
        let campaign_id = self.contributions[idx].campaign_id;
        let transfer_ref = self.contributions[idx].icp_transfer_id;
        let amount = self.contributions[idx].amount;
        if !matches!(status, EscrowStatus::Pending) {
            return Err(FundError::InvalidState);
        }
        if self.is_settling(campaign_id) {
            return Err(FundError::InvalidState);
        }
        if let Some(tid) = transfer_ref {
            let transfer_count = self.transfers.len();
            proof {
                assert(self.contributions@[idx as int].icp_transfer_id == Some(tid));
                assert(1 <= tid && tid <= transfer_count);
                assert((tid - 1) as usize == tid - 1);
            }
            let transfer_status = self.transfers[(tid - 1) as usize].status;
            if !matches!(transfer_status, ICPTransferStatus::Confirmed) {
                return Err(FundError::InvalidState);
            }
        }
        Ok(CreditNotice { campaign_id, amount })
    }

    /// Commits a confirmation: moves the contribution `Pending -> Held` and
    /// stamps the confirmation time.  Re-validates every guard, so a
    /// contribution that left `Pending` since `prepare_confirm`, or whose
    /// campaign came under settlement, is refused with `InvalidState` and
    /// nothing is mutated.
    pub fn confirm_payment(&mut self, caller: &Pk, contribution_id: u64, now_ns: u64) -> (r: Result<
        (),
        FundError,
    >)
        requires
            old(self).wf(),
        ensures
            final(self).wf(),
            final(self).operator == old(self).operator,
            final(self).escrow_account == old(self).escrow_account,
            final(self).users@ == old(self).users@,
            final(self).transfers@ == old(self).transfers@,
            final(self).settling@ == old(self).settling@,
            match old(self).spec_confirm_check(caller@, contribution_id) {
                Some(e) => r == Err::<(), FundError>(e) && final(self).contributions@ == old(
                    self,
                ).contributions@,
                None => {
                    &&& r == Ok::<(), FundError>(())
                    &&& final(self).contributions@.len() == old(self).contributions@.len()
                    &&& forall|j: int|
                        0 <= j < old(self).contributions@.len() && j != contribution_id - 1
                            ==> final(self).contributions@[j] == old(self).contributions@[j]
                    &&& held_version(
                        old(self).contributions@[contribution_id - 1],
                        final(self).contributions@[contribution_id - 1],
                        now_ns,
                    )
                },
            },
    {
        if !caller.eq_pk(&self.operator) {
            return Err(FundError::Unauthorized);
        }
        if contribution_id == 0 || contribution_id > self.contributions.len() as u64 {
            return Err(FundError::NotFound);
        }
        let idx = (contribution_id - 1) as usize;
        let status = self.contributions[idx].status;
        let campaign_id = self.contributions[idx].campaign_id;
        let transfer_ref = self.contributions[idx].icp_transfer_id;
        if !matches!(status, EscrowStatus::Pending) {
            return Err(FundError::InvalidState);
        }
        if self.is_settling(campaign_id) {
            return Err(FundError::InvalidState);
        }
        if let Some(tid) = transfer_ref {
            let transfer_count = self.transfers.len();
            proof {
                assert(self.contributions@[idx as int].icp_transfer_id == Some(tid));
                assert(1 <= tid && tid <= transfer_count);
                assert((tid - 1) as usize == tid - 1);
            }
            let transfer_status = self.transfers[(tid - 1) as usize].status;
            if !matches!(transfer_status, ICPTransferStatus::Confirmed) {
                return Err(FundError::InvalidState);
            }
        }
        let slot = contribution_at_mut(&mut self.contributions, idx);
        slot.status = EscrowStatus::Held;
        slot.confirmed_at_ns = Some(now_ns);
        Ok(())
    }

    /// The campaign's held total, accumulated with saturating additions as a
    /// 64-bit value.
    fn held_total_sat(&self, campaign_id: u64) -> (t: u64)
        ensures
            t == cap_u64(sum_status(self.contributions@, campaign_id, EscrowStatus::Held)),
    {
        let n = self.contributions.len();
        let mut total: u64 = 0;
        let mut i: usize = 0;
        while i < n
            invariant
                n == self.contributions@.len(),
                0 <= i <= n,
                total == cap_u64(
                    sum_status(
                        self.contributions@.take(i as int),
                        campaign_id,
                        EscrowStatus::Held,
                    ),
                ),
            decreases n - i,
        {
            let c = &self.contributions[i];
            let hit = c.campaign_id == campaign_id && matches!(c.status, EscrowStatus::Held);
            proof {
                assert(self.contributions@.take(i + 1).drop_last() =~= self.contributions@.take(
                    i as int,
                ));
                assert(self.contributions@.take(i + 1).last() == self.contributions@[i as int]);
            }
            if hit {
                total = total.saturating_add(c.amount);
            }
            i += 1;
        }
        proof {
            assert(self.contributions@.take(n as int) =~= self.contributions@);
        }
        total
    }

    /// Whether the campaign has some released contribution.
    fn has_released(&self, campaign_id: u64) -> (b: bool)
        ensures
            b == has_status(self.contributions@, campaign_id, EscrowStatus::Released),
    {
        let n = self.contributions.len();
        let mut i: usize = 0;
        while i < n
            invariant
                n == self.contributions@.len(),
                0 <= i <= n,
                forall|j: int|
                    0 <= j < i ==> !in_status(
                        #[trigger] self.contributions@[j],
                        campaign_id,
                        EscrowStatus::Released,
                    ),
            decreases n - i,
        {
            let c = &self.contributions[i];
            if c.campaign_id == campaign_id && matches!(c.status, EscrowStatus::Released) {
                return true;
            }
            i += 1;
        }
        false
    }

    /// Removes the campaign's settlement marker, if present.
    fn clear_settling(&mut self, campaign_id: u64) -> (found: bool)
        requires
            old(self).wf(),
        ensures
            final(self).wf(),
            final(self).operator == old(self).operator,
            final(self).escrow_account == old(self).escrow_account,
            final(self).users@ == old(self).users@,
            final(self).transfers@ == old(self).transfers@,
            final(self).contributions@ == old(self).contributions@,
            found == old(self).spec_is_settling(campaign_id),
            !old(self).spec_is_settling(campaign_id) ==> final(self).settling@ == old(
                self,
            ).settling@,
            !final(self).spec_is_settling(campaign_id),
            forall|x: u64|
                x != campaign_id ==> final(self).spec_is_settling(x) == old(self).spec_is_settling(
                    x,
                ),
    {
        let n = self.settling.len();
        let mut i: usize = 0;
        while i < n
            invariant
                old(self).wf(),
                *self == *old(self),
                n == self.settling@.len(),
                0 <= i <= n,
                forall|j: int| 0 <= j < i ==> self.settling@[j] != campaign_id,
            decreases n - i,
        {
            if self.settling[i] == campaign_id {
                let ghost prev = self.settling@;
                self.settling.remove(i);
                proof {
                    assert(self.settling@ == prev.remove(i as int));
                    assert(prev == old(self).settling@);
                    assert(prev[i as int] == campaign_id);
                    assert forall|x: u64| x != campaign_id implies self.spec_is_settling(x)
                        == old(self).spec_is_settling(x) by {
                        if prev.contains(x) {
                            let k = choose|k: int| 0 <= k < prev.len() && prev[k] == x;
                            if k < i {
                                assert(self.settling@[k] == x);
                            } else {
                                assert(prev[k] != campaign_id);
                                assert(k != i);
                                assert(self.settling@[k - 1] == x);
                            }
                        }
                        if self.settling@.contains(x) {
                            let k = choose|k: int|
                                0 <= k < self.settling@.len() && self.settling@[k] == x;
                            if k < i {
                                assert(prev[k] == x);
                            } else {
                                assert(prev[k + 1] == x);
                            }
                        }
                    }
                    assert forall|j: int| 0 <= j < self.settling@.len() implies self.settling@[j]
                        != campaign_id by {
                        if j < i {
                            assert(self.settling@[j] == old(self).settling@[j]);
                        } else {
                            assert(self.settling@[j] == old(self).settling@[j + 1]);
                            assert(old(self).settling@[j + 1] != old(self).settling@[i as int]);
                        }
                    }
                    assert(!self.spec_is_settling(campaign_id));
                    assert forall|a: int, b: int|
                        0 <= a < b < self.settling@.len() implies self.settling@[a]
                        != self.settling@[b] by {
                        let pa: int = if a < i { a } else { a + 1 };
                        let pb: int = if b < i { b } else { b + 1 };
                        assert(self.settling@[a] == old(self).settling@[pa]);
                        assert(self.settling@[b] == old(self).settling@[pb]);
                        assert(old(self).settling@[pa] != old(self).settling@[pb]);
                    }
                }
                return true;
            }
            i += 1;
        }
        false
    }

    /// The guard on opening a release settlement: which error, if any, the
    /// checks report, in the order they are made.
    pub open spec fn spec_release_check(
        self,
        caller: Seq<u8>,
        campaign_id: u64,
        meta: MetaSnapshot,
        now_ns: u64,
    ) -> Option<FundError> {
        if caller != self.operator@ {
            Some(FundError::Unauthorized)
        } else if meta is Unavailable {
            Some(FundError::UpstreamUnavailable)
        } else if meta is Missing {
            Some(FundError::NotFound)
        } else if now_ns / 1_000_000_000 <= meta->Known_0.end_date_secs {
            Some(FundError::CampaignNotEnded)
        } else if self.spec_is_settling(campaign_id) {
            Some(FundError::InvalidState)
        } else if self.held_total(campaign_id) >= meta->Known_0.goal {
            None  // release
        } else if has_status(self.contributions@, campaign_id, EscrowStatus::Released) {
            None  // already settled
        } else {
            Some(FundError::GoalNotReached)
        }
    }

    /// Opens a release settlement: checks the operator policy, that the
    /// campaign has ended, that no settlement for it is in progress, and the
    /// decision rule (held total against the goal).  On the release path it
    /// plants the settlement marker and reports the payout the caller must
    /// deliver before committing with `release_campaign`; on an
    /// already-settled campaign it reports that nothing is owed.  Nothing
    /// else is mutated, and on `GoalNotReached` no contribution changes
    /// status.
    pub fn prepare_release(
        &mut self,
        caller: &Pk,
        campaign_id: u64,
        meta: &MetaSnapshot,
        now_ns: u64,
    ) -> (r: Result<ReleasePlan, FundError>)
        requires
            old(self).wf(),
        ensures
            final(self).wf(),
            final(self).operator == old(self).operator,
            final(self).escrow_account == old(self).escrow_account,
            final(self).users@ == old(self).users@,
            final(self).transfers@ == old(self).transfers@,
            final(self).contributions@ == old(self).contributions@,
            match old(self).spec_release_check(caller@, campaign_id, *meta, now_ns) {
                Some(e) => r == Err::<ReleasePlan, FundError>(e) && final(self).settling@ == old(
                    self,
                ).settling@,
                None => if old(self).held_total(campaign_id) >= meta->Known_0.goal {
                    &&& r == Ok::<ReleasePlan, FundError>(
                        (ReleasePlan::Payout {
                            total_held: cap_u64(old(self).held_total(campaign_id)) as u64,
                        }),
                    )
                    &&& final(self).settling@ == old(self).settling@.push(campaign_id)
                } else {
                    &&& r == Ok::<ReleasePlan, FundError>(ReleasePlan::AlreadySettled)
                    &&& final(self).settling@ == old(self).settling@
                },
            },
    {
        if !caller.eq_pk(&self.operator) {
            return Err(FundError::Unauthorized);
        }
        let m = match meta {
            MetaSnapshot::Unavailable => {
                return Err(FundError::UpstreamUnavailable);
            },
            MetaSnapshot::Missing => {
                return Err(FundError::NotFound);
            },
            MetaSnapshot::Known(m) => *m,
        };
        if now_ns / 1_000_000_000 <= m.end_date_secs {
            return Err(FundError::CampaignNotEnded);
        }
        if self.is_settling(campaign_id) {
            return Err(FundError::InvalidState);
        }
        let total_held = self.held_total_sat(campaign_id);
        if total_held >= m.goal {
            let ghost prev = self.settling@;
            self.settling.push(campaign_id);
            proof {
                assert forall|i: int, j: int|
                    0 <= i < j < self.settling@.len() implies self.settling@[i]
                    != self.settling@[j] by {
                    if j == self.settling@.len() - 1 {
                        assert(self.settling@[i] == prev[i]);
                        assert(!prev.contains(campaign_id));
                        assert(prev[i] != campaign_id);
                    }
                }
            }
            return Ok(ReleasePlan::Payout { total_held });
        }
        if self.has_released(campaign_id) {
            return Ok(ReleasePlan::AlreadySettled);
        }
        Err(FundError::GoalNotReached)
    }

    /// Abandons an open release settlement, e.g. when the payout notification
    /// failed: the marker is cleared and every contribution keeps its status,
    /// so the settlement can be retried.
    pub fn abort_release(&mut self, campaign_id: u64) -> (r: Result<(), FundError>)
        requires
            old(self).wf(),
        ensures
            final(self).wf(),
            final(self).operator == old(self).operator,
            final(self).escrow_account == old(self).escrow_account,
            final(self).users@ == old(self).users@,
            final(self).transfers@ == old(self).transfers@,
            final(self).contributions@ == old(self).contributions@,
            !old(self).spec_is_settling(campaign_id) ==> r == Err::<(), FundError>(
                FundError::InvalidState,
            ) && final(self).settling@ == old(self).settling@,
            old(self).spec_is_settling(campaign_id) ==> {
                &&& r == Ok::<(), FundError>(())
                &&& !final(self).spec_is_settling(campaign_id)
                &&& forall|x: u64|
                    x != campaign_id ==> final(self).spec_is_settling(x) == old(
                        self,
                    ).spec_is_settling(x)
            },
    {
        if self.clear_settling(campaign_id) {
            Ok(())
        } else {
            Err(FundError::InvalidState)
        }
    }

    /// Commits an open release settlement: every contribution of the campaign
    /// still `Held` moves to `Released`, as one batch, and the marker is
    /// cleared.  Returns the number of contributions moved.  Without an open
    /// settlement (planted by `prepare_release`, whose payout notification
    /// the caller must have delivered) it refuses with `InvalidState` and
    /// mutates nothing.  A contribution becomes `Released` only out of
    /// `Held`.
    pub fn release_campaign(&mut self, campaign_id: u64) -> (r: Result<u64, FundError>)
        requires
            old(self).wf(),
        ensures
            final(self).wf(),
            final(self).operator == old(self).operator,
            final(self).escrow_account == old(self).escrow_account,
            final(self).users@ == old(self).users@,
            final(self).transfers@ == old(self).transfers@,
            !old(self).spec_is_settling(campaign_id) ==> r == Err::<u64, FundError>(
                FundError::InvalidState,
            ) && final(self).contributions@ == old(self).contributions@ && final(self).settling@
                == old(self).settling@,
            old(self).spec_is_settling(campaign_id) ==> {
                &&& r == Ok::<u64, FundError>(
                    count_status(old(self).contributions@, campaign_id, EscrowStatus::Held) as u64,
                )
                &&& release_applied(old(self).contributions@, final(self).contributions@, campaign_id)
                &&& !final(self).spec_is_settling(campaign_id)
                &&& forall|x: u64|
                    x != campaign_id ==> final(self).spec_is_settling(x) == old(
                        self,
                    ).spec_is_settling(x)
            },
    {
        if !self.clear_settling(campaign_id) {
            return Err(FundError::InvalidState);
        }
        let ghost orig = self.contributions@;
        let ghost orig_users = self.users@;
        let ghost orig_transfers = self.transfers@;
        let ghost orig_settling = self.settling@;
        let ghost orig_operator = self.operator;
        let ghost orig_escrow = self.escrow_account;
        let n = self.contributions.len();
        let mut count: u64 = 0;
        let mut i: usize = 0;
        while i < n
            invariant
                n == orig.len(),
                self.contributions@.len() == n,
                0 <= i <= n,
                self.users@ == orig_users,
                self.transfers@ == orig_transfers,
                self.settling@ == orig_settling,
                self.operator == orig_operator,
                self.escrow_account == orig_escrow,
                count == count_status(orig.take(i as int), campaign_id, EscrowStatus::Held),
                count <= i,
                forall|j: int|
                    0 <= j < i ==> if in_status(#[trigger] orig[j], campaign_id, EscrowStatus::Held) {
                        moved_to(orig[j], self.contributions@[j], EscrowStatus::Released)
                    } else {
                        self.contributions@[j] == orig[j]
                    },
                forall|j: int| i <= j < n ==> self.contributions@[j] == orig[j],
            decreases n - i,
        {
            proof {
                assert(orig.take(i + 1).drop_last() =~= orig.take(i as int));
                assert(orig.take(i + 1).last() == orig[i as int]);
            }
            let hit = {
                let c = &self.contributions[i];
                c.campaign_id == campaign_id && matches!(c.status, EscrowStatus::Held)
            };
            if hit {
                let slot = contribution_at_mut(&mut self.contributions, i);
                slot.status = EscrowStatus::Released;
                count = count + 1;
            }
            i += 1;
        }
        proof {
            assert(orig.take(n as int) =~= orig);
            assert(orig == old(self).contributions@);
            assert forall|j: int| 0 <= j < self.contributions@.len() implies {
                let c = #[trigger] self.contributions@[j];
                &&& c.id == j + 1
                &&& c.amount > 0
                &&& (c.icp_transfer_id is Some ==> c.method is ICP && 1 <= c.icp_transfer_id->0
                    <= self.transfers@.len())
                &&& (!(c.method is ICP) ==> c.icp_transfer_id is None)
            } by {
                assert(in_status(orig[j], campaign_id, EscrowStatus::Held) || !in_status(
                    orig[j],
                    campaign_id,
                    EscrowStatus::Held,
                ));
                assert(old(self).contributions@[j] == orig[j]);
                assert(old(self).contributions@[j].id == j + 1);
                assert(old(self).contributions@[j].amount > 0);
            }
        }
        Ok(count)
    }

    /// The guard on a refund: which error, if any, the checks report.  The
    /// refund path is also the administrative override: it does not consult
    /// the campaign's end date, only the operator policy and the settlement
    /// guard.
    pub open spec fn spec_refund_check(self, caller: Seq<u8>, campaign_id: u64) -> Option<
        FundError,
    > {
        if caller != self.operator@ {
            Some(FundError::Unauthorized)
        } else if self.spec_is_settling(campaign_id) {
            Some(FundError::InvalidState)
        } else {
            None
        }
    }

    /// Refunds the campaign: every `Pending` or `Held` contribution of the
    /// campaign moves to `Refunded`, as one batch.  Returns the number of
    /// contributions moved.  This path is unconditional on the campaign's end
    /// status; callers needing deadline enforcement must check it upstream
    /// first.  No payout notification is owed.
    pub fn refund_campaign(&mut self, caller: &Pk, campaign_id: u64) -> (r: Result<u64, FundError>)
        requires
            old(self).wf(),
        ensures
            final(self).wf(),
            final(self).operator == old(self).operator,
            final(self).escrow_account == old(self).escrow_account,
            final(self).users@ == old(self).users@,
            final(self).transfers@ == old(self).transfers@,
            final(self).settling@ == old(self).settling@,
            match old(self).spec_refund_check(caller@, campaign_id) {
                Some(e) => r == Err::<u64, FundError>(e) && final(self).contributions@ == old(
                    self,
                ).contributions@,
                None => {
                    &&& r == Ok::<u64, FundError>(
                        (count_status(old(self).contributions@, campaign_id, EscrowStatus::Pending)
                            + count_status(
                            old(self).contributions@,
                            campaign_id,
                            EscrowStatus::Held,
                        )) as u64,
                    )
                    &&& refund_applied(old(self).contributions@, final(self).contributions@, campaign_id)
                },
            },
    {
        if !caller.eq_pk(&self.operator) {
            return Err(FundError::Unauthorized);
        }
        if self.is_settling(campaign_id) {
            return Err(FundError::InvalidState);
        }
        let ghost orig = self.contributions@;
        let ghost orig_users = self.users@;
        let ghost orig_transfers = self.transfers@;
        let ghost orig_settling = self.settling@;
        let ghost orig_operator = self.operator;
        let ghost orig_escrow = self.escrow_account;
        let n = self.contributions.len();
        let mut count: u64 = 0;
        let mut i: usize = 0;
        while i < n
            invariant
                n == orig.len(),
                self.contributions@.len() == n,
                0 <= i <= n,
                self.users@ == orig_users,
                self.transfers@ == orig_transfers,
                self.settling@ == orig_settling,
                self.operator == orig_operator,
                self.escrow_account == orig_escrow,
                count == count_status(orig.take(i as int), campaign_id, EscrowStatus::Pending)
                    + count_status(orig.take(i as int), campaign_id, EscrowStatus::Held),
                count <= i,
                forall|j: int|
                    0 <= j < i ==> if in_status(#[trigger] orig[j], campaign_id, EscrowStatus::Pending)
                        || in_status(orig[j], campaign_id, EscrowStatus::Held) {
                        moved_to(orig[j], self.contributions@[j], EscrowStatus::Refunded)
                    } else {
                        self.contributions@[j] == orig[j]
                    },
                forall|j: int| i <= j < n ==> self.contributions@[j] == orig[j],
            decreases n - i,
        {
            proof {
                assert(orig.take(i + 1).drop_last() =~= orig.take(i as int));
                assert(orig.take(i + 1).last() == orig[i as int]);
            }
            let hit = {
                let c = &self.contributions[i];
                c.campaign_id == campaign_id && (matches!(c.status, EscrowStatus::Pending)
                    || matches!(c.status, EscrowStatus::Held))
            };
            if hit {
                let slot = contribution_at_mut(&mut self.contributions, i);
                slot.status = EscrowStatus::Refunded;
                count = count + 1;
            }
            i += 1;
        }
        proof {
            assert(orig.take(n as int) =~= orig);
            assert(orig == old(self).contributions@);
            assert forall|j: int| 0 <= j < self.contributions@.len() implies {
                let c = #[trigger] self.contributions@[j];
                &&& c.id == j + 1
                &&& c.amount > 0
                &&& (c.icp_transfer_id is Some ==> c.method is ICP && 1 <= c.icp_transfer_id->0
                    <= self.transfers@.len())
                &&& (!(c.method is ICP) ==> c.icp_transfer_id is None)
            } by {
                assert(in_status(orig[j], campaign_id, EscrowStatus::Pending) || !in_status(
                    orig[j],
                    campaign_id,
                    EscrowStatus::Pending,
                ));
                assert(old(self).contributions@[j] == orig[j]);
                assert(old(self).contributions@[j].id == j + 1);
                assert(old(self).contributions@[j].amount > 0);
            }
        }
        Ok(count)
    }

    /// Snapshot of the identity's contributions, in ledger order.
    pub fn get_contributions_by_user(&self, who: &Pk) -> (r: Vec<Contribution>)
        ensures
            ({
                let f = self.contributions@.filter(|c: Contribution| c.backer@ == who@);
                &&& r@.len() == f.len()
                &&& forall|k: int| 0 <= k < f.len() ==> same_contribution(#[trigger] r@[k], f[k])
            }),
    {
        let ghost pred = |c: Contribution| c.backer@ == who@;
        let n = self.contributions.len();
        let mut r: Vec<Contribution> = Vec::new();
        let mut i: usize = 0;
        proof {
            reveal(Seq::filter);
            assert(self.contributions@.take(0) =~= Seq::<Contribution>::empty());
        }
        while i < n
            invariant
                n == self.contributions@.len(),
                0 <= i <= n,
                pred == (|c: Contribution| c.backer@ == who@),
                ({
                    let f = self.contributions@.take(i as int).filter(pred);
                    &&& r@.len() == f.len()
                    &&& forall|k: int| 0 <= k < f.len() ==> same_contribution(#[trigger] r@[k], f[k])
                }),
            decreases n - i,
        {
            let c = &self.contributions[i];
            if c.backer.eq_pk(who) {
                r.push(c.clone());
            }
            proof {
                self.contributions@.take(i as int).lemma_filter_push(
                    self.contributions@[i as int],
                    pred,
                );
                assert(self.contributions@.take(i + 1) =~= self.contributions@.take(
                    i as int,
                ).push(self.contributions@[i as int]));
            }
            i += 1;
        }
        proof {
            assert(self.contributions@.take(n as int) =~= self.contributions@);
        }
        r
    }

    /// Snapshot of the campaign's contributions, in ledger order.
    pub fn get_campaign_contributions(&self, campaign_id: u64) -> (r: Vec<Contribution>)
        ensures
            ({
                let f = self.contributions@.filter(
                    |c: Contribution| c.campaign_id == campaign_id,
                );
                &&& r@.len() == f.len()
                &&& forall|k: int| 0 <= k < f.len() ==> same_contribution(#[trigger] r@[k], f[k])
            }),
    {
        let ghost pred = |c: Contribution| c.campaign_id == campaign_id;
        let n = self.contributions.len();
        let mut r: Vec<Contribution> = Vec::new();
        let mut i: usize = 0;
        proof {
            reveal(Seq::filter);
            assert(self.contributions@.take(0) =~= Seq::<Contribution>::empty());
        }
        while i < n
            invariant
                n == self.contributions@.len(),
                0 <= i <= n,
                pred == (|c: Contribution| c.campaign_id == campaign_id),
                ({
                    let f = self.contributions@.take(i as int).filter(pred);
                    &&& r@.len() == f.len()
                    &&& forall|k: int| 0 <= k < f.len() ==> same_contribution(#[trigger] r@[k], f[k])
                }),
            decreases n - i,
        {
            let c = &self.contributions[i];
            if c.campaign_id == campaign_id {
                r.push(c.clone());
            }
            proof {
                self.contributions@.take(i as int).lemma_filter_push(
                    self.contributions@[i as int],
                    pred,
                );
                assert(self.contributions@.take(i + 1) =~= self.contributions@.take(
                    i as int,
                ).push(self.contributions@[i as int]));
            }
            i += 1;
        }
        proof {
            assert(self.contributions@.take(n as int) =~= self.contributions@);
        }
        r
    }

    /// Snapshot of the transfers sent by the identity, in tracker order.
    pub fn get_icp_transfers_by_user(&self, who: &Pk) -> (r: Vec<ICPTransfer>)
        ensures
            ({
                let f = self.transfers@.filter(|t: ICPTransfer| t.from@ == who@);
                &&& r@.len() == f.len()
                &&& forall|k: int| 0 <= k < f.len() ==> same_transfer(#[trigger] r@[k], f[k])
            }),
    {
        let ghost pred = |t: ICPTransfer| t.from@ == who@;
        let n = self.transfers.len();
        let mut r: Vec<ICPTransfer> = Vec::new();
        let mut i: usize = 0;
        proof {
            reveal(Seq::filter);
            assert(self.transfers@.take(0) =~= Seq::<ICPTransfer>::empty());
        }
        while i < n
            invariant
                n == self.transfers@.len(),
                0 <= i <= n,
                pred == (|t: ICPTransfer| t.from@ == who@),
                ({
                    let f = self.transfers@.take(i as int).filter(pred);
                    &&& r@.len() == f.len()
                    &&& forall|k: int| 0 <= k < f.len() ==> same_transfer(#[trigger] r@[k], f[k])
                }),
            decreases n - i,
        {
            let t = &self.transfers[i];
            if t.from.eq_pk(who) {
                r.push(t.clone());
            }
            proof {
                self.transfers@.take(i as int).lemma_filter_push(
                    self.transfers@[i as int],
                    pred,
                );
                assert(self.transfers@.take(i + 1) =~= self.transfers@.take(i as int).push(
                    self.transfers@[i as int],
                ));
            }
            i += 1;
        }
        proof {
            assert(self.transfers@.take(n as int) =~= self.transfers@);
        }
        r
    }

    /// Per-status totals of the campaign, each accumulated with saturating
    /// additions as a 64-bit value.
    pub fn get_escrow_summary(&self, campaign_id: u64) -> (s: EscrowSummary)
        ensures
            s.campaign_id == campaign_id,
            s.total_pending == cap_u64(
                sum_status(self.contributions@, campaign_id, EscrowStatus::Pending),
            ),
            s.total_held == cap_u64(
                sum_status(self.contributions@, campaign_id, EscrowStatus::Held),
            ),
            s.total_released == cap_u64(
                sum_status(self.contributions@, campaign_id, EscrowStatus::Released),
            ),
            s.total_refunded == cap_u64(
                sum_status(self.contributions@, campaign_id, EscrowStatus::Refunded),
            ),
    {
        let n = self.contributions.len();
        let mut total_pending: u64 = 0;
        let mut total_held: u64 = 0;
        let mut total_released: u64 = 0;
        let mut total_refunded: u64 = 0;
        let mut i: usize = 0;
        while i < n
            invariant
                n == self.contributions@.len(),
                0 <= i <= n,
                total_pending == cap_u64(
                    sum_status(
                        self.contributions@.take(i as int),
                        campaign_id,
                        EscrowStatus::Pending,
                    ),
                ),
                total_held == cap_u64(
                    sum_status(
                        self.contributions@.take(i as int),
                        campaign_id,
                        EscrowStatus::Held,
                    ),
                ),
                total_released == cap_u64(
                    sum_status(
                        self.contributions@.take(i as int),
                        campaign_id,
                        EscrowStatus::Released,
                    ),
                ),
                total_refunded == cap_u64(
                    sum_status(
                        self.contributions@.take(i as int),
                        campaign_id,
                        EscrowStatus::Refunded,
                    ),
                ),
            decreases n - i,
        {
            proof {
                assert(self.contributions@.take(i + 1).drop_last() =~= self.contributions@.take(
                    i as int,
                ));
                assert(self.contributions@.take(i + 1).last() == self.contributions@[i as int]);
            }
            let c = &self.contributions[i];
            if c.campaign_id == campaign_id {
                match c.status {
                    EscrowStatus::Pending => {
                        total_pending = total_pending.saturating_add(c.amount);
                    },
                    EscrowStatus::Held => {
                        total_held = total_held.saturating_add(c.amount);
                    },
                    EscrowStatus::Released => {
                        total_released = total_released.saturating_add(c.amount);
                    },
                    EscrowStatus::Refunded => {
                        total_refunded = total_refunded.saturating_add(c.amount);
                    },
                }
            }
            i += 1;
        }
        proof {
            assert(self.contributions@.take(n as int) =~= self.contributions@);
        }
        EscrowSummary { campaign_id, total_pending, total_held, total_released, total_refunded }
    }

    /// Whether a release settlement for the campaign is in progress.
    pub fn is_settling(&self, campaign_id: u64) -> (b: bool)
        ensures
            b == self.spec_is_settling(campaign_id),
    {
        let n = self.settling.len();
        let mut i: usize = 0;
        while i < n
            invariant
                n == self.settling@.len(),
                0 <= i <= n,
                forall|j: int| 0 <= j < i ==> self.settling@[j] != campaign_id,
            decreases n - i,
        {
            if self.settling[i] == campaign_id {
                return true;
            }
            i += 1;
        }
        false
    }
}

/// Mutable access to one user record.
fn user_at_mut(v: &mut Vec<RegisteredUser>, i: usize) -> (e: &mut RegisteredUser)
    requires
        i < old(v).len(),
    ensures
        *e == old(v)@[i as int],
        final(v)@ == old(v)@.update(i as int, *final(e)),
{
    &mut v[i]
}

/// Mutable access to one contribution record.
fn contribution_at_mut(v: &mut Vec<Contribution>, i: usize) -> (e: &mut Contribution)
    requires
        i < old(v).len(),
    ensures
        *e == old(v)@[i as int],
        final(v)@ == old(v)@.update(i as int, *final(e)),
{
    &mut v[i]
}

} // verus!
