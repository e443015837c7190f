//! The campaign-metadata authority: ideas, their documents, campaigns, and
//! the running credit totals it is notified of.  The escrow ledger consumes
//! this store only through metadata snapshots; here the store itself is
//! verified.

use vstd::prelude::*;
use crate::errors::FundError;
use crate::escrow_types::CampaignMeta;

verus! {

/// A 64-bit sum that saturates at the type's limit.
pub open spec fn sat_add(a: u64, b: u64) -> u64 {
    if a + b > u64::MAX {
        u64::MAX
    } else {
        (a + b) as u64
    }
}

/// Seconds since the epoch, from a nanosecond clock reading.
pub fn now_secs(now_ns: u64) -> (r: u64)
    ensures
        r == now_ns / 1_000_000_000,
{
    now_ns / 1_000_000_000
}

/// A business idea submitted for funding.
pub struct Idea {
    pub title: String,
    pub description: String,
    pub funding_goal: u64,
    pub current_funding: u64,
    pub legal_entity: String,
    /// Review state, e.g. "pending", "approved", "rejected".
    pub status: Option<String>,
    pub contact_info: String,
    pub category: String,
    pub business_registration: u8,
    pub created_at: u64,
    pub updated_at: u64,
    /// Ids of the uploaded documents attached to this idea.
    pub doc_ids: Vec<u64>,
}

/// The two records agree on every field.
pub open spec fn same_idea(a: Idea, b: Idea) -> bool {
    &&& a.title@ == b.title@
    &&& a.description@ == b.description@
    &&& a.funding_goal == b.funding_goal
    &&& a.current_funding == b.current_funding
    &&& a.legal_entity@ == b.legal_entity@
    &&& a.status == b.status
    &&& a.contact_info@ == b.contact_info@
    &&& a.category@ == b.category@
    &&& a.business_registration == b.business_registration
    &&& a.created_at == b.created_at
    &&& a.updated_at == b.updated_at
    &&& a.doc_ids@ == b.doc_ids@
}

impl Clone for Idea {
    fn clone(&self) -> (r: Self)
        ensures
            same_idea(r, *self),
    {
        let doc_ids = self.doc_ids.clone();
        proof {
            assert(doc_ids@ =~= self.doc_ids@);
        }
        Idea {
            title: self.title.clone(),
            description: self.description.clone(),
            funding_goal: self.funding_goal,
            current_funding: self.current_funding,
            legal_entity: self.legal_entity.clone(),
            status: self.status.clone(),
            contact_info: self.contact_info.clone(),
            category: self.category.clone(),
            business_registration: self.business_registration,
            created_at: self.created_at,
            updated_at: self.updated_at,
            doc_ids,
        }
    }
}

/// One uploaded document, owned by an idea.
pub struct Doc {
    pub id: u64,
    pub idea_id: u64,
    pub name: String,
    pub content_type: String,
    pub data: Vec<u8>,
    pub uploaded_at: u64,
}

/// The two records agree on every field.
pub open spec fn same_doc(a: Doc, b: Doc) -> bool {
    &&& a.id == b.id
    &&& a.idea_id == b.idea_id
    &&& a.name@ == b.name@
    &&& a.content_type@ == b.content_type@
    &&& a.data@ == b.data@
    &&& a.uploaded_at == b.uploaded_at
}

impl Clone for Doc {
    fn clone(&self) -> (r: Self)
        ensures
            same_doc(r, *self),
    {
        let data = self.data.clone();
        proof {
            assert(data@ =~= self.data@);
        }
        Doc {
            id: self.id,
            idea_id: self.idea_id,
            name: self.name.clone(),
            content_type: self.content_type.clone(),
            data,
            uploaded_at: self.uploaded_at,
        }
    }
}

/// A funding campaign, linked to an existing idea.
#[derive(Clone, Copy, PartialEq, Eq, Structural, Debug)]
pub struct Campaign {
    pub id: u64,
    pub idea_id: u64,
    pub amount_raised: u64,
    pub goal: u64,
    /// Seconds since the epoch.
    pub end_date: u64,
}

/// A campaign joined with the title and category of its idea, plus the whole
/// days left until its end date.
pub struct CampaignCard {
    pub id: u64,
    pub idea_id: u64,
    pub title: String,
    pub category: String,
    pub amount_raised: u64,
    pub goal: u64,
    pub end_date: u64,
    pub days_left: u64,
}

/// Whether a campaign is still accepting time-wise.
#[derive(Clone, Copy, PartialEq, Eq, Structural, Debug)]
pub enum CampaignStatus {
    Active,
    Ended,
}

/// A campaign card together with its full idea record.
pub struct CampaignWithIdea {
    pub campaign: CampaignCard,
    pub idea: Idea,
}

/// The whole days between now and the campaign's end date; zero once the end
/// date has passed.
pub open spec fn spec_days_left(end_date: u64, now_secs: u64) -> int {
    if end_date > now_secs {
        (end_date - now_secs) / 86_400
    } else {
        0
    }
}

/// The card reports the campaign's own figures, its idea's title and
/// category, and the days left at the given time.
pub open spec fn card_matches(card: CampaignCard, c: Campaign, idea: Idea, now_secs: u64) -> bool {
    &&& card.id == c.id
    &&& card.idea_id == c.idea_id
    &&& card.title@ == idea.title@
    &&& card.category@ == idea.category@
    &&& card.amount_raised == c.amount_raised
    &&& card.goal == c.goal
    &&& card.end_date == c.end_date
    &&& card.days_left == spec_days_left(c.end_date, now_secs)
}

/// Joins one campaign with its idea at the given time.
pub fn to_card(c: &Campaign, idea: &Idea, now_secs: u64) -> (card: CampaignCard)
    ensures
        card_matches(card, *c, *idea, now_secs),
{
    let days_left: u64 = if c.end_date > now_secs {
        (c.end_date - now_secs) / 86_400
    } else {
        0
    };
    CampaignCard {
        id: c.id,
        idea_id: c.idea_id,
        title: idea.title.clone(),
        category: idea.category.clone(),
        amount_raised: c.amount_raised,
        goal: c.goal,
        end_date: c.end_date,
        days_left,
    }
}

/// The authority's store: ideas, documents, campaigns and the credited
/// native-coin totals per campaign.
pub struct Backend {
    /// Idea with id `i + 1` sits at index `i`; never deleted.
    pub ideas: Vec<Idea>,
    /// Document with id `i + 1` sits at index `i`; never deleted.
    pub docs: Vec<Doc>,
    /// Campaign with id `i + 1` sits at index `i`; never deleted.
    pub campaigns: Vec<Campaign>,
    /// Credited native-coin total per campaign id; one entry per campaign.
    pub icp_contributions: Vec<(u64, u64)>,
}

impl Backend {
    /// Structural invariant: ids are positions, every campaign points at a
    /// real idea, every document at a real idea, and credit totals are keyed
    /// at most once.
    pub open spec fn wf(self) -> bool {
        &&& forall|i: int|
            0 <= i < self.docs@.len() ==> (#[trigger] self.docs@[i]).id == i + 1
        &&& forall|i: int|
            0 <= i < self.campaigns@.len() ==> (#[trigger] self.campaigns@[i]).id == i + 1
        &&& forall|i: int|
            0 <= i < self.campaigns@.len() ==> 1 <= (#[trigger] self.campaigns@[i]).idea_id
                <= self.ideas@.len()
        &&& forall|i: int|
            0 <= i < self.docs@.len() ==> 1 <= (#[trigger] self.docs@[i]).idea_id
                <= self.ideas@.len()
        &&& forall|i: int, j: int|
            #![trigger self.icp_contributions@[i], self.icp_contributions@[j]]
            0 <= i < j < self.icp_contributions@.len() ==> self.icp_contributions@[i].0
                != self.icp_contributions@[j].0
    }

    /// The credited native-coin total recorded for the campaign, zero if none
    /// was recorded yet.
    pub open spec fn spec_icp_total(self, campaign_id: u64) -> u64 {
        entry_total(self.icp_contributions@, campaign_id)
    }

    /// An empty store.
    pub fn new() -> (r: Self)
        ensures
            r.wf(),
            r.ideas@ =~= Seq::<Idea>::empty(),
            r.docs@ =~= Seq::<Doc>::empty(),
            r.campaigns@ =~= Seq::<Campaign>::empty(),
            r.icp_contributions@ =~= Seq::<(u64, u64)>::empty(),
    {
        Backend { ideas: Vec::new(), docs: Vec::new(), campaigns: Vec::new(), icp_contributions: Vec::new() }
    }

    /// Persists a new idea and returns its id.  All text fields must be
    /// given and the funding goal must be positive; the store refuses to
    /// exist in any other state, so the caller validates first.
    pub fn create_idea(
        &mut self,
        title: String,
        description: String,
        funding_goal: u64,
        legal_entity: String,
        contact_info: String,
        category: String,
        business_registration: u8,
        now_ns: u64,
    ) -> (r: u64)
        requires
            old(self).wf(),
            old(self).ideas@.len() < u64::MAX,
            title@.len() > 0,
            description@.len() > 0,
            funding_goal > 0,
            legal_entity@.len() > 0,
            contact_info@.len() > 0,
            category@.len() > 0,
        ensures
            final(self).wf(),
            final(self).docs@ == old(self).docs@,
            final(self).campaigns@ == old(self).campaigns@,
            final(self).icp_contributions@ == old(self).icp_contributions@,
            r == old(self).ideas@.len() + 1,
            final(self).ideas@.len() == old(self).ideas@.len() + 1,
            final(self).ideas@.drop_last() == old(self).ideas@,
            ({
                let idea = final(self).ideas@.last();
                &&& idea.title == title
                &&& idea.description == description
                &&& idea.funding_goal == funding_goal
                &&& idea.current_funding == 0
                &&& idea.legal_entity == legal_entity
                &&& idea.status is Some && idea.status->0@ == "pending"@
                &&& idea.contact_info == contact_info
                &&& idea.category == category
                &&& idea.business_registration == business_registration
                &&& idea.created_at == now_ns
                &&& idea.updated_at == now_ns
                &&& idea.doc_ids@ =~= Seq::<u64>::empty()
            }),
    {
        let idea = Idea {
            title,
            description,
            funding_goal,
            current_funding: 0,
            legal_entity,
            status: Some(String::from_str("pending")),
            contact_info,
            doc_ids: Vec::new(),
            category,
            business_registration,
            created_at: now_ns,
            updated_at: now_ns,
        };
        let id = (self.ideas.len() as u64) + 1;
        self.ideas.push(idea);
        proof {
            assert(self.ideas@.drop_last() =~= old(self).ideas@);
        }
        id
    }

    /// One idea, by id.
    pub fn get_idea_by_id(&self, idea_id: u64) -> (r: Option<Idea>)
        ensures
            1 <= idea_id <= self.ideas@.len() ==> r is Some && same_idea(
                r->0,
                self.ideas@[idea_id - 1],
            ),
            !(1 <= idea_id <= self.ideas@.len()) ==> r is None,
    {
        if idea_id == 0 || idea_id > self.ideas.len() as u64 {
            return None;
        }
        Some(self.ideas[(idea_id - 1) as usize].clone())
    }

    /// Stores a document for an idea and attaches it; `None` if the idea does
    /// not exist.  Returns the new document id.
    pub fn upload_doc(
        &mut self,
        idea_id: u64,
        name: String,
        content_type: String,
        data: Vec<u8>,
        uploaded_at: u64,
    ) -> (r: Option<u64>)
        requires
            old(self).wf(),
            old(self).docs@.len() < u64::MAX,
        ensures
            final(self).wf(),
            final(self).campaigns@ == old(self).campaigns@,
            final(self).icp_contributions@ == old(self).icp_contributions@,
            !(1 <= idea_id <= old(self).ideas@.len()) ==> r is None && final(self).docs@ == old(
                self,
            ).docs@ && final(self).ideas@ == old(self).ideas@,
            1 <= idea_id <= old(self).ideas@.len() ==> {
                &&& r == Some((old(self).docs@.len() + 1) as u64)
                &&& final(self).docs@.len() == old(self).docs@.len() + 1
                &&& final(self).docs@.drop_last() == old(self).docs@
                &&& ({
                    let d = final(self).docs@.last();
                    &&& d.id == old(self).docs@.len() + 1
                    &&& d.idea_id == idea_id
                    &&& d.name == name
                    &&& d.content_type == content_type
                    &&& d.data == data
                    &&& d.uploaded_at == uploaded_at
                })
                &&& final(self).ideas@.len() == old(self).ideas@.len()
                &&& forall|j: int|
                    0 <= j < old(self).ideas@.len() && j != idea_id - 1 ==> final(self).ideas@[j]
                        == old(self).ideas@[j]
                &&& ({
                    let pre = old(self).ideas@[idea_id - 1];
                    let post = final(self).ideas@[idea_id - 1];
                    &&& post.doc_ids@ == pre.doc_ids@.push((old(self).docs@.len() + 1) as u64)
                    &&& post.title == pre.title
                    &&& post.description == pre.description
                    &&& post.funding_goal == pre.funding_goal
                    &&& post.current_funding == pre.current_funding
                    &&& post.legal_entity == pre.legal_entity
                    &&& post.status == pre.status
                    &&& post.contact_info == pre.contact_info
                    &&& post.category == pre.category
                    &&& post.business_registration == pre.business_registration
                    &&& post.created_at == pre.created_at
                    &&& post.updated_at == pre.updated_at
                })
            },
    {
        if idea_id == 0 || idea_id > self.ideas.len() as u64 {
            return None;
        }
        let doc_id = (self.docs.len() as u64) + 1;
        let doc = Doc { id: doc_id, idea_id, name, content_type, data, uploaded_at };
        self.docs.push(doc);
        let idx = (idea_id - 1) as usize;
        let slot = idea_at_mut(&mut self.ideas, idx);
        slot.doc_ids.push(doc_id);
        proof {
            assert(self.docs@.drop_last() =~= old(self).docs@);
        }
        Some(doc_id)
    }

    /// One document, by id.
    pub fn get_doc(&self, doc_id: u64) -> (r: Option<Doc>)
        ensures
            1 <= doc_id <= self.docs@.len() ==> r is Some && same_doc(
                r->0,
                self.docs@[doc_id - 1],
            ),
            !(1 <= doc_id <= self.docs@.len()) ==> r is None,
    {
        if doc_id == 0 || doc_id > self.docs.len() as u64 {
            return None;
        }
        Some(self.docs[(doc_id - 1) as usize].clone())
    }

    /// Creates a campaign linked to an existing idea and returns its id.
    pub fn create_campaign(&mut self, idea_id: u64, goal: u64, end_date: u64) -> (r: Result<
        u64,
        FundError,
    >)
        requires
            old(self).wf(),
            old(self).campaigns@.len() < u64::MAX,
        ensures
            final(self).wf(),
            final(self).ideas@ == old(self).ideas@,
            final(self).docs@ == old(self).docs@,
            final(self).icp_contributions@ == old(self).icp_contributions@,
            goal == 0 ==> r == Err::<u64, FundError>(FundError::InvalidInput) && final(self).campaigns@ == old(self).campaigns@,
            goal > 0 && !(1 <= idea_id <= old(self).ideas@.len()) ==> r == Err::<u64, FundError>(
                FundError::NotFound,
            ) && final(self).campaigns@ == old(self).campaigns@,
            goal > 0 && 1 <= idea_id <= old(self).ideas@.len() ==> {
                &&& r == Ok::<u64, FundError>((old(self).campaigns@.len() + 1) as u64)
                &&& final(self).campaigns@ == old(self).campaigns@.push(
                    (Campaign {
                        id: (old(self).campaigns@.len() + 1) as u64,
                        idea_id,
                        amount_raised: 0,
                        goal,
                        end_date,
                    }),
                )
            },
    {
        if goal == 0 {
            return Err(FundError::InvalidInput);
        }
        if idea_id == 0 || idea_id > self.ideas.len() as u64 {
            return Err(FundError::NotFound);
        }
        let id = (self.campaigns.len() as u64) + 1;
        self.campaigns.push(Campaign { id, idea_id, amount_raised: 0, goal, end_date });
        proof {
            assert(self.campaigns@ =~= old(self).campaigns@.push(self.campaigns@.last()));
        }
        Ok(id)
    }

    /// One campaign, by id.
    pub fn get_campaign(&self, id: u64) -> (r: Option<Campaign>)
        ensures
            1 <= id <= self.campaigns@.len() ==> r == Some(self.campaigns@[id - 1]),
            !(1 <= id <= self.campaigns@.len()) ==> r is None,
    {
        if id == 0 || id > self.campaigns.len() as u64 {
            return None;
        }
        Some(self.campaigns[(id - 1) as usize])
    }

    /// Overwrites the raised amount recorded on a campaign; a no-op on an
    /// unknown id.
    pub fn update_campaign_amount(&mut self, campaign_id: u64, new_amount: u64)
        requires
            old(self).wf(),
        ensures
            final(self).wf(),
            final(self).ideas@ == old(self).ideas@,
            final(self).docs@ == old(self).docs@,
            final(self).icp_contributions@ == old(self).icp_contributions@,
            !(1 <= campaign_id <= old(self).campaigns@.len()) ==> final(self).campaigns@ == old(
                self,
            ).campaigns@,
            1 <= campaign_id <= old(self).campaigns@.len() ==> final(self).campaigns@ == old(
                self,
            ).campaigns@.update(
                campaign_id - 1,
                (Campaign { amount_raised: new_amount, ..old(self).campaigns@[campaign_id - 1] }),
            ),
    {
        if campaign_id == 0 || campaign_id > self.campaigns.len() as u64 {
            return ;
        }
        let idx = (campaign_id - 1) as usize;
        let slot = campaign_at_mut(&mut self.campaigns, idx);
        slot.amount_raised = new_amount;
    }

    /// The metadata snapshot served to the escrow ledger: the campaign's
    /// goal, raised amount and end date, or nothing for an unknown id.
    pub fn get_campaign_meta(&self, campaign_id: u64) -> (r: Option<CampaignMeta>)
        ensures
            1 <= campaign_id <= self.campaigns@.len() ==> r == Some(
                (CampaignMeta {
                    campaign_id: self.campaigns@[campaign_id - 1].id,
                    goal: self.campaigns@[campaign_id - 1].goal,
                    amount_raised: self.campaigns@[campaign_id - 1].amount_raised,
                    end_date_secs: self.campaigns@[campaign_id - 1].end_date,
                }),
            ),
            !(1 <= campaign_id <= self.campaigns@.len()) ==> r is None,
    {
        match self.get_campaign(campaign_id) {
            Some(c) => Some(
                CampaignMeta {
                    campaign_id: c.id,
                    goal: c.goal,
                    amount_raised: c.amount_raised,
                    end_date_secs: c.end_date,
                },
            ),
            None => None,
        }
    }

    /// The credited native-coin total for a campaign, zero if none was
    /// recorded.
    pub fn get_icp_contribution(&self, campaign_id: u64) -> (r: u64)
        requires
            self.wf(),
        ensures
            r == self.spec_icp_total(campaign_id),
    {
        let n = self.icp_contributions.len();
        let mut i: usize = 0;
        while i < n
            invariant
                self.wf(),
                n == self.icp_contributions@.len(),
                0 <= i <= n,
                forall|j: int|
                    0 <= j < i ==> (#[trigger] self.icp_contributions@[j]).0 != campaign_id,
            decreases n - i,
        {
            let entry = self.icp_contributions[i];
            if entry.0 == campaign_id {
                proof {
                    lemma_unique_entry_total(self.icp_contributions@, campaign_id, i as int);
                }
                return entry.1;
            }
            i += 1;
        }
        0
    }

    /// Records an incremental native-coin credit for a campaign: the per-
    /// campaign credit total, the campaign's raised amount and the idea's
    /// current funding each grow by the amount, saturating at the 64-bit
    /// limit, and the idea's update time is stamped.  Fails only on an
    /// unknown campaign, mutating nothing.
    pub fn receive_icp_contribution(&mut self, campaign_id: u64, amount_e8s: u64, now_ns: u64) -> (r:
        Result<(), FundError>)
        requires
            old(self).wf(),
        ensures
            final(self).wf(),
            final(self).docs@ == old(self).docs@,
            !(1 <= campaign_id <= old(self).campaigns@.len()) ==> r == Err::<(), FundError>(
                FundError::NotFound,
            ) && final(self).campaigns@ == old(self).campaigns@ && final(self).ideas@ == old(
                self,
            ).ideas@ && final(self).icp_contributions@ == old(self).icp_contributions@,
            1 <= campaign_id <= old(self).campaigns@.len() ==> {
                let c = old(self).campaigns@[campaign_id - 1];
                let idea_pre = old(self).ideas@[c.idea_id - 1];
                &&& r == Ok::<(), FundError>(())
                &&& final(self).spec_icp_total(campaign_id) == sat_add(
                    old(self).spec_icp_total(campaign_id),
                    amount_e8s,
                )
                &&& forall|x: u64|
                    x != campaign_id ==> final(self).spec_icp_total(x) == old(self).spec_icp_total(
                        x,
                    )
                &&& final(self).campaigns@ == old(self).campaigns@.update(
                    campaign_id - 1,
                    (Campaign { amount_raised: sat_add(c.amount_raised, amount_e8s), ..c }),
                )
                &&& final(self).ideas@ == old(self).ideas@.update(
                    c.idea_id - 1,
                    (Idea {
                        current_funding: sat_add(idea_pre.current_funding, amount_e8s),
                        updated_at: now_ns,
                        ..idea_pre
                    }),
                )
            },
    {
        let campaign = match self.get_campaign(campaign_id) {
            Some(c) => c,
            None => {
                return Err(FundError::NotFound);
            },
        };
        let idx = self.find_icp_entry(campaign_id);
        match idx {
            Some(i) => {
                let entry = self.icp_contributions[i];
                let updated = entry.1.saturating_add(amount_e8s);
                let slot = icp_entry_at_mut(&mut self.icp_contributions, i);
                *slot = (campaign_id, updated);
                proof {
                    lemma_unique_entry_total(old(self).icp_contributions@, campaign_id, i as int);
                    assert forall|a: int, b: int|
                        #![trigger self.icp_contributions@[a], self.icp_contributions@[b]]
                        0 <= a < b < self.icp_contributions@.len() implies self.icp_contributions@[
                        a
                    ].0 != self.icp_contributions@[b].0 by {
                        assert(old(self).icp_contributions@[a].0 != old(
                            self,
                        ).icp_contributions@[b].0);
                    }
                    lemma_unique_entry_total(self.icp_contributions@, campaign_id, i as int);
                    assert forall|x: u64| x != campaign_id implies self.spec_icp_total(x) == old(
                        self,
                    ).spec_icp_total(x) by {
                        lemma_entry_total_other(
                            old(self).icp_contributions@,
                            self.icp_contributions@,
                            i as int,
                            x,
                        );
                    }
                }
            },
            None => {
                self.icp_contributions.push((campaign_id, amount_e8s));
                proof {
                    let m = self.icp_contributions@;
                    assert(m.last() == (campaign_id, amount_e8s));
                    assert forall|a: int, b: int|
                        #![trigger m[a], m[b]]
                        0 <= a < b < m.len() implies m[a].0 != m[b].0 by {
                        if b == m.len() - 1 {
                            assert(old(self).icp_contributions@[a].0 != campaign_id);
                            assert(m[a] == old(self).icp_contributions@[a]);
                        } else {
                            assert(m[a] == old(self).icp_contributions@[a]);
                            assert(m[b] == old(self).icp_contributions@[b]);
                        }
                    }
                    lemma_unique_entry_total(m, campaign_id, m.len() - 1);
                    assert forall|x: u64| x != campaign_id implies self.spec_icp_total(x) == old(
                        self,
                    ).spec_icp_total(x) by {
                        lemma_entry_total_push_other(
                            old(self).icp_contributions@,
                            campaign_id,
                            amount_e8s,
                            x,
                        );
                    }
                }
            },
        }
        let new_amount = campaign.amount_raised.saturating_add(amount_e8s);
        self.update_campaign_amount(campaign_id, new_amount);
        let ideas_count = self.ideas.len();
        proof {
            assert(old(self).campaigns@[campaign_id - 1] == campaign);
            assert(1 <= campaign.idea_id <= ideas_count);
            assert((campaign.idea_id - 1) as usize == campaign.idea_id - 1);
        }
        let idea_idx = (campaign.idea_id - 1) as usize;
        let slot = idea_at_mut(&mut self.ideas, idea_idx);
        slot.current_funding = slot.current_funding.saturating_add(amount_e8s);
        slot.updated_at = now_ns;
        proof {
            assert(self.ideas@ =~= old(self).ideas@.update(
                campaign.idea_id - 1,
                self.ideas@[campaign.idea_id - 1],
            ));
        }
        Ok(())
    }

    /// Index of the credit entry for the campaign, if one exists.
    fn find_icp_entry(&self, campaign_id: u64) -> (r: Option<usize>)
        ensures
            match r {
                Some(i) => i < self.icp_contributions@.len() && self.icp_contributions@[
                    i as int
                ].0 == campaign_id,
                None => forall|j: int|
                    0 <= j < self.icp_contributions@.len() ==> (#[trigger] self.icp_contributions@[
                        j
                    ]).0 != campaign_id,
            },
    {
        let n = self.icp_contributions.len();
        let mut i: usize = 0;
        while i < n
            invariant
                n == self.icp_contributions@.len(),
                0 <= i <= n,
                forall|j: int|
                    0 <= j < i ==> (#[trigger] self.icp_contributions@[j]).0 != campaign_id,
            decreases n - i,
        {
            if self.icp_contributions[i].0 == campaign_id {
                return Some(i);
            }
            i += 1;
        }
        None
    }

    /// The campaign's raised amount plus its credited native-coin total,
    /// saturating at the 64-bit limit; zero for an unknown campaign with no
    /// credits.
    pub fn get_campaign_total_funding(&self, campaign_id: u64) -> (r: u64)
        requires
            self.wf(),
        ensures
            ({
                let base: int = if 1 <= campaign_id <= self.campaigns@.len() {
                    self.campaigns@[campaign_id - 1].amount_raised as int
                } else {
                    0
                };
                let total = base + self.spec_icp_total(campaign_id) as int;
                r == if total > u64::MAX {
                    u64::MAX as int
                } else {
                    total
                }
            }),
    {
        let base = match self.get_campaign(campaign_id) {
            Some(c) => c.amount_raised,
            None => 0,
        };
        let icp = self.get_icp_contribution(campaign_id);
        base.saturating_add(icp)
    }

    /// Cards for every campaign, joined with their ideas at the given time.
    pub fn get_campaign_cards(&self, now_secs: u64) -> (r: Vec<CampaignCard>)
        requires
            self.wf(),
        ensures
            r@.len() == self.campaigns@.len(),
            forall|k: int|
                0 <= k < r@.len() ==> card_matches(
                    #[trigger] r@[k],
                    self.campaigns@[k],
                    self.ideas@[self.campaigns@[k].idea_id - 1],
                    now_secs,
                ),
    {
        let n = self.campaigns.len();
        let mut r: Vec<CampaignCard> = Vec::new();
        let mut i: usize = 0;
        while i < n
            invariant
                self.wf(),
                n == self.campaigns@.len(),
                0 <= i <= n,
                r@.len() == i,
                forall|k: int|
                    0 <= k < i ==> card_matches(
                        #[trigger] r@[k],
                        self.campaigns@[k],
                        self.ideas@[self.campaigns@[k].idea_id - 1],
                        now_secs,
                    ),
            decreases n - i,
        {
            let c = self.campaigns[i];
            let ideas_count = self.ideas.len();
            proof {
                assert(1 <= self.campaigns@[i as int].idea_id <= self.ideas@.len());
                assert((c.idea_id - 1) as usize == c.idea_id - 1);
            }
            let idea_idx = (c.idea_id - 1) as usize;
            let card = to_card(&c, &self.ideas[idea_idx], now_secs);
            r.push(card);
            i += 1;
        }
        r
    }

    /// Cards for the campaigns whose time window matches the status: active
    /// campaigns have not passed their end date at the given time; ended ones
    /// have.
    pub fn get_campaign_cards_by_status(&self, status: CampaignStatus, now_secs: u64) -> (r: Vec<
        CampaignCard,
    >)
        requires
            self.wf(),
        ensures
            ({
                let f = self.campaigns@.filter(
                    |c: Campaign|
                        if status is Active {
                            c.end_date >= now_secs
                        } else {
                            c.end_date < now_secs
                        },
                );
                &&& r@.len() == f.len()
                &&& forall|k: int|
                    0 <= k < f.len() ==> 1 <= (#[trigger] f[k]).idea_id <= self.ideas@.len()
                        && card_matches(r@[k], f[k], self.ideas@[f[k].idea_id - 1], now_secs)
            }),
    {
        let ghost pred = |c: Campaign|
            if status is Active {
                c.end_date >= now_secs
            } else {
                c.end_date < now_secs
            };
        let n = self.campaigns.len();
        let mut r: Vec<CampaignCard> = Vec::new();
        let mut i: usize = 0;
        proof {
            reveal(Seq::filter);
            assert(self.campaigns@.take(0) =~= Seq::<Campaign>::empty());
        }
        while i < n
            invariant
                self.wf(),
                n == self.campaigns@.len(),
                0 <= i <= n,
                pred == (|c: Campaign|
                    if status is Active {
                        c.end_date >= now_secs
                    } else {
                        c.end_date < now_secs
                    }),
                ({
                    let f = self.campaigns@.take(i as int).filter(pred);
                    &&& r@.len() == f.len()
                    &&& forall|k: int|
                        0 <= k < f.len() ==> 1 <= (#[trigger] f[k]).idea_id <= self.ideas@.len()
                            && card_matches(r@[k], f[k], self.ideas@[f[k].idea_id - 1], now_secs)
                }),
            decreases n - i,
        {
            let c = self.campaigns[i];
            let hit = match status {
                CampaignStatus::Active => c.end_date >= now_secs,
                CampaignStatus::Ended => c.end_date < now_secs,
            };
            if hit {
                let ideas_count = self.ideas.len();
                proof {
                    assert(1 <= self.campaigns@[i as int].idea_id <= self.ideas@.len());
                    assert((c.idea_id - 1) as usize == c.idea_id - 1);
                }
                let idea_idx = (c.idea_id - 1) as usize;
                let card = to_card(&c, &self.ideas[idea_idx], now_secs);
                r.push(card);
            }
            proof {
                self.campaigns@.take(i as int).lemma_filter_push(
                    self.campaigns@[i as int],
                    pred,
                );
                assert(self.campaigns@.take(i + 1) =~= self.campaigns@.take(i as int).push(
                    self.campaigns@[i as int],
                ));
            }
            i += 1;
        }
        proof {
            assert(self.campaigns@.take(n as int) =~= self.campaigns@);
        }
        r
    }

    /// One campaign joined with its full idea record, at the given time.
    pub fn get_campaign_with_idea(&self, campaign_id: u64, now_secs: u64) -> (r: Option<
        CampaignWithIdea,
    >)
        requires
            self.wf(),
        ensures
            !(1 <= campaign_id <= self.campaigns@.len()) ==> r is None,
            1 <= campaign_id <= self.campaigns@.len() ==> r is Some && ({
                let c = self.campaigns@[campaign_id - 1];
                &&& card_matches(r->0.campaign, c, self.ideas@[c.idea_id - 1], now_secs)
                &&& same_idea(r->0.idea, self.ideas@[c.idea_id - 1])
            }),
    {
        let c = match self.get_campaign(campaign_id) {
            Some(c) => c,
            None => {
                return None;
            },
        };
        let ideas_count = self.ideas.len();
        proof {
            assert(1 <= self.campaigns@[campaign_id - 1].idea_id <= self.ideas@.len());
            assert((c.idea_id - 1) as usize == c.idea_id - 1);
        }
        let idea_idx = (c.idea_id - 1) as usize;
        let idea = self.ideas[idea_idx].clone();
        let card = to_card(&c, &self.ideas[idea_idx], now_secs);
        Some(CampaignWithIdea { campaign: card, idea })
    }
}

/// The credited total keyed under a campaign id in a raw entry list, zero if
/// the id has no entry.
pub open spec fn entry_total(m: Seq<(u64, u64)>, campaign_id: u64) -> u64 {
    if exists|i: int| 0 <= i < m.len() && (#[trigger] m[i]).0 == campaign_id {
        m[choose|i: int| 0 <= i < m.len() && (#[trigger] m[i]).0 == campaign_id].1
    } else {
        0
    }
}

/// With unique keys, the total reported for a key is the value stored beside
/// it.
proof fn lemma_unique_entry_total(m: Seq<(u64, u64)>, campaign_id: u64, i: int)
    requires
        0 <= i < m.len(),
        m[i].0 == campaign_id,
        forall|a: int, b: int|
            #![trigger m[a], m[b]]
            0 <= a < b < m.len() ==> m[a].0 != m[b].0,
    ensures
        entry_total(m, campaign_id) == m[i].1,
{
    assert(m[i].0 == campaign_id);
    let j = choose|j: int| 0 <= j < m.len() && (#[trigger] m[j]).0 == campaign_id;
    if j != i {
        if j < i {
            assert(m[j].0 != m[i].0);
        } else {
            assert(m[i].0 != m[j].0);
        }
    }
}

/// Updating one entry in place leaves every other key's total as it was.
proof fn lemma_entry_total_other(pre: Seq<(u64, u64)>, post: Seq<(u64, u64)>, i: int, x: u64)
    requires
        0 <= i < pre.len(),
        post.len() == pre.len(),
        post[i].0 == pre[i].0,
        forall|j: int| 0 <= j < pre.len() && j != i ==> #[trigger] post[j] == pre[j],
        x != pre[i].0,
        forall|a: int, b: int|
            #![trigger pre[a], pre[b]]
            0 <= a < b < pre.len() ==> pre[a].0 != pre[b].0,
    ensures
        entry_total(post, x) == entry_total(pre, x),
{
    assert forall|a: int, b: int|
        #![trigger post[a], post[b]]
        0 <= a < b < post.len() implies post[a].0 != post[b].0 by {
        assert(pre[a].0 != pre[b].0);
        if a == i {
            assert(post[a].0 == pre[a].0);
        }
        if b == i {
            assert(post[b].0 == pre[b].0);
        }
    }
    if exists|j: int| 0 <= j < post.len() && (#[trigger] post[j]).0 == x {
        let jq = choose|j: int| 0 <= j < post.len() && (#[trigger] post[j]).0 == x;
        assert(jq != i);
        assert(pre[jq].0 == x);
    }
    if exists|j: int| 0 <= j < pre.len() && (#[trigger] pre[j]).0 == x {
        let jp = choose|j: int| 0 <= j < pre.len() && (#[trigger] pre[j]).0 == x;
        assert(jp != i);
        assert(post[jp].0 == x);
        lemma_unique_entry_total(pre, x, jp);
        lemma_unique_entry_total(post, x, jp);
        assert(post[jp].1 == pre[jp].1);
    }
}

/// Pushing an entry under a fresh key leaves every other key's total as it
/// was.
proof fn lemma_entry_total_push_other(pre: Seq<(u64, u64)>, campaign_id: u64, amount: u64, x: u64)
    requires
        x != campaign_id,
        forall|a: int, b: int|
            #![trigger pre[a], pre[b]]
            0 <= a < b < pre.len() ==> pre[a].0 != pre[b].0,
        forall|j: int| 0 <= j < pre.len() ==> (#[trigger] pre[j]).0 != campaign_id,
    ensures
        entry_total(pre.push((campaign_id, amount)), x) == entry_total(pre, x),
{
    let post = pre.push((campaign_id, amount));
    assert(post[post.len() - 1].0 == campaign_id);
    assert forall|j: int| 0 <= j < pre.len() implies #[trigger] post[j] == pre[j] by {}
    assert forall|a: int, b: int|
        #![trigger post[a], post[b]]
        0 <= a < b < post.len() implies post[a].0 != post[b].0 by {
        if b == post.len() - 1 {
            assert(pre[a].0 != campaign_id);
            assert(post[a] == pre[a]);
        } else {
            assert(post[a] == pre[a]);
            assert(post[b] == pre[b]);
        }
    }
    if exists|j: int| 0 <= j < post.len() && (#[trigger] post[j]).0 == x {
        let jq = choose|j: int| 0 <= j < post.len() && (#[trigger] post[j]).0 == x;
        assert(jq != post.len() - 1);
        assert(pre[jq].0 == x);
    }
    if exists|j: int| 0 <= j < pre.len() && (#[trigger] pre[j]).0 == x {
        let jp = choose|j: int| 0 <= j < pre.len() && (#[trigger] pre[j]).0 == x;
        assert(post[jp].0 == x);
        lemma_unique_entry_total(pre, x, jp);
        lemma_unique_entry_total(post, x, jp);
    }
}

/// Mutable access to one idea record.
fn idea_at_mut(v: &mut Vec<Idea>, i: usize) -> (e: &mut Idea)
    requires
        i < old(v).len(),
    ensures
        *e == old(v)@[i as int],
        final(v)@ == old(v)@.update(i as int, *final(e)),
{
    &mut v[i]
}

/// Mutable access to one campaign record.
fn campaign_at_mut(v: &mut Vec<Campaign>, i: usize) -> (e: &mut Campaign)
    requires
        i < old(v).len(),
    ensures
        *e == old(v)@[i as int],
        final(v)@ == old(v)@.update(i as int, *final(e)),
{
    &mut v[i]
}

/// Mutable access to one credit entry.
fn icp_entry_at_mut(v: &mut Vec<(u64, u64)>, i: usize) -> (e: &mut (u64, u64))
    requires
        i < old(v).len(),
    ensures
        *e == old(v)@[i as int],
        final(v)@ == old(v)@.update(i as int, *final(e)),
{
    &mut v[i]
}

} // verus!
