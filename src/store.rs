use vstd::prelude::*;

use crate::idea_map::{decode_idea, encode_idea, idea_bytes, idea_map_contents, IdeaMap};
use crate::model::{
    card_of, card_status, status_of, to_card, Campaign, CampaignCard, CampaignError,
    CampaignStatus, CampaignWithIdea, CardView, Doc, DocView, Idea, IdeaView,
};

verus! {

/// The contents of a store: each collection is listed by identifier, the record
/// with identifier `k` standing at position `k - 1`.
pub ghost struct StoreView {
    pub ideas: Seq<IdeaView>,
    pub docs: Seq<DocView>,
    pub campaigns: Seq<Campaign>,
}

/// The label that every new idea carries.
pub open spec fn pending_label() -> Seq<char> {
    "pending"@
}

/// What `create_idea` asks of its input: every text field non-empty and a
/// positive funding goal.
pub open spec fn valid_idea_input(
    title: Seq<char>,
    description: Seq<char>,
    funding_goal: u64,
    legal_entity: Seq<char>,
    contact_info: Seq<char>,
    category: Seq<char>,
) -> bool {
    title.len() > 0 && description.len() > 0 && funding_goal > 0 && legal_entity.len() > 0
        && contact_info.len() > 0 && category.len() > 0
}

/// The record that `create_idea` stores for its input at time `now` (nanoseconds).
pub open spec fn new_idea(
    title: Seq<char>,
    description: Seq<char>,
    funding_goal: u64,
    legal_entity: Seq<char>,
    contact_info: Seq<char>,
    category: Seq<char>,
    business_registration: u8,
    now: u64,
) -> IdeaView {
    IdeaView {
        title,
        description,
        funding_goal,
        current_funding: 0,
        legal_entity,
        status: Some(pending_label()),
        contact_info,
        category,
        business_registration,
        created_at: now,
        updated_at: now,
        doc_ids: Seq::empty(),
    }
}

pub open spec fn idea_view_of(r: Option<Idea>) -> Option<IdeaView> {
    match r {
        Some(i) => Some(i@),
        None => None,
    }
}

pub open spec fn doc_view_of(r: Option<Doc>) -> Option<DocView> {
    match r {
        Some(d) => Some(d@),
        None => None,
    }
}

impl StoreView {
    pub open spec fn has_idea(self, id: u64) -> bool {
        1 <= id <= self.ideas.len()
    }

    pub open spec fn idea(self, id: u64) -> IdeaView {
        self.ideas[id - 1]
    }

    pub open spec fn lookup_idea(self, id: u64) -> Option<IdeaView> {
        if self.has_idea(id) {
            Some(self.idea(id))
        } else {
            None
        }
    }

    pub open spec fn has_doc(self, id: u64) -> bool {
        1 <= id <= self.docs.len()
    }

    pub open spec fn lookup_doc(self, id: u64) -> Option<DocView> {
        if self.has_doc(id) {
            Some(self.docs[id - 1])
        } else {
            None
        }
    }

    pub open spec fn has_campaign(self, id: u64) -> bool {
        1 <= id <= self.campaigns.len()
    }

    /// The card of the campaign at position `i`, seen at `now` (seconds).
    pub open spec fn card_at(self, i: int, now: u64) -> CardView {
        card_of(self.campaigns[i], self.idea(self.campaigns[i].idea_id), now)
    }

    /// The cards of all campaigns, in order of creation.
    pub open spec fn cards(self, now: u64) -> Seq<CardView> {
        Seq::new(self.campaigns.len(), |i: int| self.card_at(i, now))
    }

    /// The cards of the campaigns whose classification at `now` is `status`.
    pub open spec fn cards_with_status(self, status: CampaignStatus, now: u64) -> Seq<CardView> {
        self.cards(now).filter(|c: CardView| status_of(c, now) == status)
    }

    /// The idea with identifier `idea_id` after document `doc_id` was attached.
    pub open spec fn with_doc(self, idea_id: u64, doc_id: u64) -> Seq<IdeaView> {
        let old_idea = self.idea(idea_id);
        self.ideas.update(
            idea_id - 1,
            IdeaView { doc_ids: old_idea.doc_ids.push(doc_id), ..old_idea },
        )
    }

    pub open spec fn idea_wf(self, i: int) -> bool {
        let idea = self.ideas[i];
        &&& idea.funding_goal > 0
        &&& forall|j: int|
            0 <= j < idea.doc_ids.len() ==> {
                let d = #[trigger] idea.doc_ids[j];
                &&& 1 <= d <= self.docs.len()
                &&& self.docs[d - 1].idea_id == i + 1
            }
        &&& forall|j: int, k: int|
            0 <= j < k < idea.doc_ids.len() ==> idea.doc_ids[j] < idea.doc_ids[k]
    }

    /// The store's invariant: identifiers follow positions, every reference
    /// resolves, funding goals are positive, and each idea lists only its own
    /// documents, in increasing order.
    pub open spec fn wf(self) -> bool {
        &&& forall|i: int| 0 <= i < self.ideas.len() ==> #[trigger] self.idea_wf(i)
        &&& forall|i: int|
            0 <= i < self.docs.len() ==> {
                &&& (#[trigger] self.docs[i]).id == i + 1
                &&& self.has_idea(self.docs[i].idea_id)
            }
        &&& forall|i: int|
            0 <= i < self.campaigns.len() ==> {
                &&& (#[trigger] self.campaigns[i]).id == i + 1
                &&& self.has_idea(self.campaigns[i].idea_id)
            }
    }
}

/// The ideas, documents and campaigns of one application. Ideas are kept
/// encoded in a stable-structures map; documents and campaigns in vectors.
pub struct Store {
    ideas: IdeaMap,
    idea_total: u64,
    idea_model: Ghost<Seq<IdeaView>>,
    docs: Vec<Doc>,
    campaigns: Vec<Campaign>,
}

impl View for Store {
    type V = StoreView;

    closed spec fn view(&self) -> StoreView {
        StoreView {
            ideas: self.idea_model@,
            docs: self.docs@.map_values(|d: Doc| d@),
            campaigns: self.campaigns@,
        }
    }
}

impl Store {
    /// The idea map holds, under each identifier `k` in use, the encoding
    /// of the `k`-th idea.
    pub closed spec fn ideas_stored(&self) -> bool {
        &&& self.idea_total == self.idea_model@.len()
        &&& forall|k: u64|
            1 <= k <= self.idea_total ==> {
                &&& #[trigger] idea_map_contents(self.ideas).contains_key(k)
                &&& idea_map_contents(self.ideas)[k] == idea_bytes(self.idea_model@[k - 1])
            }
    }

    /// The store's invariant: its ideas are stored as its view says, and the
    /// view is well formed.
    pub open spec fn wf(&self) -> bool {
        self.ideas_stored() && self@.wf()
    }

    /// The idea with identifier `id`, read back from the idea map.
    fn read_idea(&self, id: u64) -> (r: Idea)
        requires
            self.wf(),
            self@.has_idea(id),
        ensures
            r@ == self@.idea(id),
    {
        let bytes = self.ideas.get(id).unwrap();
        assert(idea_bytes(self.idea_model@[id - 1]) == bytes@);
        decode_idea(&bytes).unwrap()
    }

    /// An empty store.
    pub fn new() -> (r: Store)
        ensures
            r@.ideas.len() == 0,
            r@.docs.len() == 0,
            r@.campaigns.len() == 0,
            r.wf(),
    {
        let r = Store {
            ideas: IdeaMap::new(),
            idea_total: 0,
            idea_model: Ghost(Seq::empty()),
            docs: Vec::new(),
            campaigns: Vec::new(),
        };
        assert(r@.docs =~= Seq::empty());
        r
    }

    /// How many ideas the store holds.
    pub fn idea_count(&self) -> (r: u64)
        requires
            self.wf(),
        ensures
            r == self@.ideas.len(),
    {
        self.idea_total
    }

    /// How many documents the store holds.
    pub fn doc_count(&self) -> (r: usize)
        ensures
            r == self@.docs.len(),
    {
        self.docs.len()
    }

    /// How many campaigns the store holds.
    pub fn campaign_count(&self) -> (r: usize)
        ensures
            r == self@.campaigns.len(),
    {
        self.campaigns.len()
    }

    /// Stores a new idea created at `now` (nanoseconds) and returns its
    /// identifier; invalid input is rejected with `None` and changes nothing.
    pub fn create_idea(
        &mut self,
        title: String,
        description: String,
        funding_goal: u64,
        legal_entity: String,
        contact_info: String,
        category: String,
        business_registration: u8,
        now: u64,
    ) -> (r: Option<u64>)
        requires
            old(self).wf(),
            old(self)@.ideas.len() < u64::MAX,
        ensures
            final(self).wf(),
            valid_idea_input(title@, description@, funding_goal, legal_entity@, contact_info@, category@)
                ==> r == Some((old(self)@.ideas.len() + 1) as u64) && final(self)@ == (StoreView {
                    ideas: old(self)@.ideas.push(
                        new_idea(
                            title@,
                            description@,
                            funding_goal,
                            legal_entity@,
                            contact_info@,
                            category@,
                            business_registration,
                            now,
                        ),
                    ),
                    ..old(self)@
                }),
            !valid_idea_input(title@, description@, funding_goal, legal_entity@, contact_info@, category@)
                ==> r.is_none() && final(self)@ == old(self)@,
    {
        if title.as_str().is_empty() || description.as_str().is_empty() || funding_goal == 0
            || legal_entity.as_str().is_empty() || contact_info.as_str().is_empty()
            || category.as_str().is_empty() {
            return None;
        }
        let status = String::from_str("pending");
        let idea = Idea {
            title,
            description,
            funding_goal,
            current_funding: 0,
            legal_entity,
            status: Some(status),
            contact_info,
            category,
            business_registration,
            created_at: now,
            updated_at: now,
            doc_ids: Vec::new(),
        };
        assert(idea@.doc_ids =~= Seq::<u64>::empty());
        Some(self.append_idea(idea))
    }

    /// The idea with identifier `id`, if there is one.
    pub fn get_idea(&self, id: u64) -> (r: Option<Idea>)
        requires
            self.wf(),
        ensures
            idea_view_of(r) == self@.lookup_idea(id),
    {
        if id >= 1 && id <= self.idea_total {
            Some(self.read_idea(id))
        } else {
            None
        }
    }

    /// The idea with identifier `idea_id`, if there is one; reading changes nothing.
    pub fn get_idea_by_id(&self, idea_id: u64) -> (r: Option<Idea>)
        requires
            self.wf(),
        ensures
            idea_view_of(r) == self@.lookup_idea(idea_id),
    {
        self.get_idea(idea_id)
    }
    /// Stores a document for idea `idea_id` and appends its identifier to the
    /// idea's documents; without such an idea, returns `None` and changes nothing.
    pub fn upload_doc(
        &mut self,
        idea_id: u64,
        name: String,
        content_type: String,
        data: Vec<u8>,
        uploaded_at: u64,
    ) -> (r: Option<u64>)
        requires
            old(self).wf(),
            old(self)@.docs.len() < u64::MAX,
        ensures
            final(self).wf(),
            !old(self)@.has_idea(idea_id) ==> r.is_none() && final(self)@ == old(self)@,
            old(self)@.has_idea(idea_id) ==> {
                let doc_id = (old(self)@.docs.len() + 1) as u64;
                &&& r == Some(doc_id)
                &&& !old(self)@.idea(idea_id).doc_ids.contains(doc_id)
                &&& final(self)@ == (StoreView {
                    ideas: old(self)@.with_doc(idea_id, doc_id),
                    docs: old(self)@.docs.push(
                        DocView {
                            id: doc_id,
                            idea_id,
                            name: name@,
                            content_type: content_type@,
                            data: data@,
                            uploaded_at,
                        },
                    ),
                    campaigns: old(self)@.campaigns,
                })
            },
    {
        if !(idea_id >= 1 && idea_id <= self.idea_total) {
            return None;
        }
        let ghost pre = self@;
        let ghost pre_map = idea_map_contents(self.ideas);
        let doc_id = self.docs.len() as u64 + 1;
        let mut idea = self.read_idea(idea_id);
        idea.doc_ids.push(doc_id);
        let bytes = encode_idea(&idea).unwrap();
        let doc = Doc { id: doc_id, idea_id, name, content_type, data, uploaded_at };
        self.docs.push(doc);
        self.ideas.insert(idea_id, bytes);
        self.idea_model = Ghost(pre.ideas.update(idea_id - 1, idea@));
        let ghost k = idea_id - 1;
        assert(pre.idea_wf(k as int));
        assert(idea@ == (IdeaView { doc_ids: pre.idea(idea_id).doc_ids.push(doc_id), ..pre.idea(idea_id) }));
        assert forall|key: u64| 1 <= key <= self.idea_total implies {
            &&& #[trigger] idea_map_contents(self.ideas).contains_key(key)
            &&& idea_map_contents(self.ideas)[key] == idea_bytes(self.idea_model@[key - 1])
        } by {
            if key != idea_id {
                assert(pre_map.contains_key(key));
            }
        }
        assert(!pre.idea(idea_id).doc_ids.contains(doc_id)) by {
            if pre.idea(idea_id).doc_ids.contains(doc_id) {
                let j = choose|j: int|
                    0 <= j < pre.idea(idea_id).doc_ids.len() && pre.idea(idea_id).doc_ids[j]
                        == doc_id;
                assert(1 <= pre.idea(idea_id).doc_ids[j] <= pre.docs.len());
            }
        }
        assert(self@.docs =~= pre.docs.push(doc@));
        assert(self@.ideas =~= pre.with_doc(idea_id, doc_id));
        assert forall|i: int| 0 <= i < self@.ideas.len() implies #[trigger] self@.idea_wf(i) by {
            assert(pre.idea_wf(i));
            let ids = self@.ideas[i].doc_ids;
            assert forall|j: int| 0 <= j < ids.len() implies {
                let d = #[trigger] ids[j];
                &&& 1 <= d <= self@.docs.len()
                &&& self@.docs[d - 1].idea_id == i + 1
            } by {
                if i != k || j < ids.len() - 1 {
                    assert(pre.ideas[i].doc_ids[j] == ids[j]);
                }
            }
            assert forall|j: int, l: int| 0 <= j < l < ids.len() implies ids[j] < ids[l] by {
                if i != k || l < ids.len() - 1 {
                    assert(pre.ideas[i].doc_ids[l] == ids[l]);
                } else {
                    assert(1 <= pre.ideas[i].doc_ids[j] <= pre.docs.len());
                }
                assert(pre.ideas[i].doc_ids[j] == ids[j]);
            }
        }
        Some(doc_id)
    }

    /// The document with identifier `doc_id`, if there is one.
    pub fn get_doc(&self, doc_id: u64) -> (r: Option<Doc>)
        ensures
            doc_view_of(r) == self@.lookup_doc(doc_id),
    {
        if doc_id >= 1 && doc_id <= self.docs.len() as u64 {
            Some(self.docs[(doc_id - 1) as usize].duplicate())
        } else {
            None
        }
    }

    /// Stores a campaign for idea `idea_id` and returns its identifier; fails on
    /// a zero goal first, then on an unknown idea, and then changes nothing.
    pub fn create_campaign(&mut self, idea_id: u64, goal: u64, end_date: u64) -> (r: Result<
        u64,
        CampaignError,
    >)
        requires
            old(self).wf(),
            old(self)@.campaigns.len() < u64::MAX,
        ensures
            final(self).wf(),
            goal == 0 ==> r == Err::<u64, CampaignError>(CampaignError::GoalNotPositive),
            goal > 0 && !old(self)@.has_idea(idea_id) ==> r == Err::<u64, CampaignError>(
                CampaignError::IdeaNotFound,
            ),
            r.is_err() ==> final(self)@ == old(self)@,
            goal > 0 && old(self)@.has_idea(idea_id) ==> {
                let id = (old(self)@.campaigns.len() + 1) as u64;
                &&& r == Ok::<u64, CampaignError>(id)
                &&& final(self)@ == (StoreView {
                    campaigns: old(self)@.campaigns.push(
                        Campaign { id, idea_id, amount_raised: 0, goal, end_date },
                    ),
                    ..old(self)@
                })
            },
    {
        if goal == 0 {
            return Err(CampaignError::GoalNotPositive);
        }
        if !(idea_id >= 1 && idea_id <= self.idea_total) {
            return Err(CampaignError::IdeaNotFound);
        }
        let ghost pre = self@;
        let id = self.campaigns.len() as u64 + 1;
        self.campaigns.push(Campaign { id, idea_id, amount_raised: 0, goal, end_date });
        assert(self@.ideas =~= pre.ideas);
        assert(self@.docs =~= pre.docs);
        assert forall|i: int| 0 <= i < self@.ideas.len() implies #[trigger] self@.idea_wf(i) by {
            assert(pre.idea_wf(i));
        }
        Ok(id)
    }
    /// The card of every campaign, seen at `now` (seconds), in order of creation.
    pub fn get_campaign_cards(&self, now: u64) -> (r: Vec<CampaignCard>)
        requires
            self.wf(),
        ensures
            r@.map_values(|c: CampaignCard| c@) == self@.cards(now),
    {
        let mut out: Vec<CampaignCard> = Vec::new();
        let mut i: usize = 0;
        while i < self.campaigns.len()
            invariant
                self.wf(),
                i <= self.campaigns.len(),
                out@.map_values(|c: CampaignCard| c@) == self@.cards(now).subrange(0, i as int),
            decreases self.campaigns.len() - i,
        {
            let card = self.card_at(i, now);
            let ghost before = out@;
            out.push(card);
            assert(out@.map_values(|c: CampaignCard| c@) =~= before.map_values(
                |c: CampaignCard| c@,
            ).push(card@));
            assert(self@.cards(now).subrange(0, i + 1) =~= self@.cards(now).subrange(
                0,
                i as int,
            ).push(card@));
            i = i + 1;
        }
        assert(self@.cards(now).subrange(0, i as int) =~= self@.cards(now));
        out
    }

    /// The cards of the campaigns whose classification at `now` (seconds) is
    /// `status`, in order of creation.
    pub fn get_campaign_cards_by_status(&self, status: CampaignStatus, now: u64) -> (r: Vec<
        CampaignCard,
    >)
        requires
            self.wf(),
        ensures
            r@.map_values(|c: CampaignCard| c@) == self@.cards_with_status(status, now),
    {
        let ghost pred = |c: CardView| status_of(c, now) == status;
        let ghost cards = self@.cards(now);
        let mut out: Vec<CampaignCard> = Vec::new();
        let mut i: usize = 0;
        while i < self.campaigns.len()
            invariant
                self.wf(),
                i <= self.campaigns.len(),
                cards == self@.cards(now),
                pred == (|c: CardView| status_of(c, now) == status),
                out@.map_values(|c: CampaignCard| c@) == cards.subrange(0, i as int).filter(pred),
            decreases self.campaigns.len() - i,
        {
            let card = self.card_at(i, now);
            assert(cards.subrange(0, i + 1) =~= cards.subrange(0, i as int).push(cards[i as int]));
            let ghost before = out@;
            assert(cards[i as int] == card@);
            proof {
                cards.subrange(0, i as int).lemma_filter_push(card@, pred);
            }
            if card_status(&card, now) == status {
                out.push(card);
                assert(out@.map_values(|c: CampaignCard| c@) =~= before.map_values(
                    |c: CampaignCard| c@,
                ).push(card@));
            }
            i = i + 1;
        }
        assert(cards.subrange(0, i as int) =~= cards);
        out
    }

    /// The card of the campaign at position `i`.
    fn card_at(&self, i: usize, now: u64) -> (r: CampaignCard)
        requires
            self.wf(),
            i < self@.campaigns.len(),
        ensures
            r@ == self@.card_at(i as int, now),
    {
        let c = &self.campaigns[i];
        assert(self@.campaigns[i as int] == *c);
        let idea = self.read_idea(c.idea_id);
        to_card(c, &idea, now)
    }

    /// Campaign `campaign_id` joined with its idea, seen at `now` (seconds), if
    /// there is such a campaign.
    pub fn get_campaign_with_idea(&self, campaign_id: u64, now: u64) -> (r: Option<
        CampaignWithIdea,
    >)
        requires
            self.wf(),
        ensures
            r.is_some() == self@.has_campaign(campaign_id),
            r matches Some(w) ==> {
                let c = self@.campaigns[campaign_id - 1];
                &&& w.campaign.id == campaign_id
                &&& w.campaign@ == self@.card_at(campaign_id - 1, now)
                &&& w.idea@ == self@.idea(c.idea_id)
            },
    {
        if !(campaign_id >= 1 && campaign_id <= self.campaigns.len() as u64) {
            return None;
        }
        let i = (campaign_id - 1) as usize;
        let c = &self.campaigns[i];
        assert(self@.campaigns[i as int] == *c);
        let idea = self.read_idea(c.idea_id);
        Some(CampaignWithIdea { campaign: to_card(c, &idea, now), idea })
    }
    /// Appends an idea record as it was saved, with no documents yet, and
    /// returns its identifier; a record with a zero funding goal is refused
    /// with `None` and changes nothing. Replaying a store's documents through
    /// `upload_doc` afterwards gives each idea back its document list.
    pub fn restore_idea(
        &mut self,
        title: String,
        description: String,
        funding_goal: u64,
        current_funding: u64,
        legal_entity: String,
        status: Option<String>,
        contact_info: String,
        category: String,
        business_registration: u8,
        created_at: u64,
        updated_at: u64,
    ) -> (r: Option<u64>)
        requires
            old(self).wf(),
            old(self)@.ideas.len() < u64::MAX,
        ensures
            final(self).wf(),
            funding_goal == 0 ==> r.is_none() && final(self)@ == old(self)@,
            funding_goal > 0 ==> r == Some((old(self)@.ideas.len() + 1) as u64) && final(self)@ == (
            StoreView {
                ideas: old(self)@.ideas.push(
                    IdeaView {
                        title: title@,
                        description: description@,
                        funding_goal,
                        current_funding,
                        legal_entity: legal_entity@,
                        status: match status {
                            Some(s) => Some(s@),
                            None => None,
                        },
                        contact_info: contact_info@,
                        category: category@,
                        business_registration,
                        created_at,
                        updated_at,
                        doc_ids: Seq::empty(),
                    },
                ),
                ..old(self)@
            }),
    {
        if funding_goal == 0 {
            return None;
        }
        let idea = Idea {
            title,
            description,
            funding_goal,
            current_funding,
            legal_entity,
            status,
            contact_info,
            category,
            business_registration,
            created_at,
            updated_at,
            doc_ids: Vec::new(),
        };
        Some(self.append_idea(idea))
    }

    /// Stores `idea` under the next identifier.
    fn append_idea(&mut self, idea: Idea) -> (r: u64)
        requires
            old(self).wf(),
            old(self)@.ideas.len() < u64::MAX,
            idea.funding_goal > 0,
            idea.doc_ids@.len() == 0,
        ensures
            final(self).wf(),
            r == old(self)@.ideas.len() + 1,
            final(self)@ == (StoreView { ideas: old(self)@.ideas.push(idea@), ..old(self)@ }),
    {
        let bytes = encode_idea(&idea).unwrap();
        let id = self.idea_total + 1;
        let ghost pre = self@;
        let ghost pre_map = idea_map_contents(self.ideas);
        self.ideas.insert(id, bytes);
        self.idea_total = id;
        self.idea_model = Ghost(pre.ideas.push(idea@));
        assert(self@.docs == pre.docs);
        assert forall|k: u64| 1 <= k <= self.idea_total implies {
            &&& #[trigger] idea_map_contents(self.ideas).contains_key(k)
            &&& idea_map_contents(self.ideas)[k] == idea_bytes(self.idea_model@[k - 1])
        } by {
            if k < id {
                assert(pre_map.contains_key(k));
            }
        }
        assert forall|i: int| 0 <= i < self@.ideas.len() implies #[trigger] self@.idea_wf(i) by {
            if i < pre.ideas.len() {
                assert(pre.idea_wf(i));
            }
        }
        id
    }

    /// The campaign with identifier `id`, if there is one.
    pub fn get_campaign(&self, id: u64) -> (r: Option<Campaign>)
        requires
            self.wf(),
        ensures
            r == (if self@.has_campaign(id) {
                Some(self@.campaigns[id - 1])
            } else {
                None
            }),
    {
        if id >= 1 && id <= self.campaigns.len() as u64 {
            let c = &self.campaigns[(id - 1) as usize];
            Some(Campaign {
                id: c.id,
                idea_id: c.idea_id,
                amount_raised: c.amount_raised,
                goal: c.goal,
                end_date: c.end_date,
            })
        } else {
            None
        }
    }
}

} // verus!
