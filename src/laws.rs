use vstd::prelude::*;

use crate::model::{days_left_of, status_of, CampaignStatus, CardView, SECS_PER_DAY};
use crate::store::{new_idea, pending_label, valid_idea_input, StoreView};

verus! {

/// Creating an idea hands out an identifier that no stored idea has and that is
/// greater than every identifier handed out before; reading that identifier
/// back gives the input fields, with no funding yet and the pending label.
pub proof fn lemma_created_idea_is_fresh_and_readable(
    s: StoreView,
    title: Seq<char>,
    description: Seq<char>,
    funding_goal: u64,
    legal_entity: Seq<char>,
    contact_info: Seq<char>,
    category: Seq<char>,
    business_registration: u8,
    now: u64,
)
    requires
        s.wf(),
        s.ideas.len() < u64::MAX,
        valid_idea_input(title, description, funding_goal, legal_entity, contact_info, category),
    ensures
        ({
            let id = (s.ideas.len() + 1) as u64;
            let after = StoreView {
                ideas: s.ideas.push(
                    new_idea(
                        title,
                        description,
                        funding_goal,
                        legal_entity,
                        contact_info,
                        category,
                        business_registration,
                        now,
                    ),
                ),
                ..s
            };
            &&& s.lookup_idea(id).is_none()
            &&& forall|k: u64| s.has_idea(k) ==> k < id
            &&& after.lookup_idea(id) matches Some(idea) && {
                &&& idea.title == title
                &&& idea.description == description
                &&& idea.funding_goal == funding_goal
                &&& idea.legal_entity == legal_entity
                &&& idea.contact_info == contact_info
                &&& idea.category == category
                &&& idea.business_registration == business_registration
                &&& idea.current_funding == 0
                &&& idea.status == Some(pending_label())
                &&& idea.doc_ids.len() == 0
            }
        }),
{
}

/// Attaching a document to an idea appends its identifier to the idea's
/// documents, keeps the earlier ones in order, and introduces no duplicate.
pub proof fn lemma_attached_doc_is_appended_once(s: StoreView, idea_id: u64)
    requires
        s.wf(),
        s.has_idea(idea_id),
        s.docs.len() < u64::MAX,
    ensures
        ({
            let doc_id = (s.docs.len() + 1) as u64;
            let ids = s.with_doc(idea_id, doc_id)[idea_id - 1].doc_ids;
            &&& ids == s.idea(idea_id).doc_ids.push(doc_id)
            &&& !s.idea(idea_id).doc_ids.contains(doc_id)
            &&& ids.no_duplicates()
        }),
{
    let doc_id = (s.docs.len() + 1) as u64;
    let prior = s.idea(idea_id).doc_ids;
    let ids = s.with_doc(idea_id, doc_id)[idea_id - 1].doc_ids;
    assert(s.idea_wf(idea_id - 1));
    assert forall|j: int, k: int| 0 <= j < ids.len() && 0 <= k < ids.len() && j != k implies ids[j]
        != ids[k] by {
        let (a, b) = if j < k { (j, k) } else { (k, j) };
        if b < prior.len() {
            assert(prior[a] < prior[b]);
        } else {
            assert(1 <= prior[a] <= s.docs.len());
        }
    }
    if prior.contains(doc_id) {
        let j = choose|j: int| 0 <= j < prior.len() && prior[j] == doc_id;
        assert(1 <= prior[j] <= s.docs.len());
    }
}

/// A campaign is listed among the active cards exactly while its end date has
/// not passed, and among the ended cards exactly once it has; in particular one
/// ending a week from now is active, and one that ended five days ago is ended.
pub proof fn lemma_status_lists_follow_end_date(s: StoreView, i: int, now: u64)
    requires
        s.wf(),
        0 <= i < s.campaigns.len(),
    ensures
        ({
            let card = s.card_at(i, now);
            let end = s.campaigns[i].end_date;
            &&& s.cards_with_status(CampaignStatus::Active, now).contains(card) <==> end >= now
            &&& s.cards_with_status(CampaignStatus::Ended, now).contains(card) <==> end < now
            &&& end == now + 7 * SECS_PER_DAY ==> days_left_of(end, now) == 7
            &&& end + 5 * SECS_PER_DAY == now ==> days_left_of(end, now) == -5
        }),
{
    let card = s.card_at(i, now);
    let cards = s.cards(now);
    assert(cards[i] == card);
    let active = |c: CardView| status_of(c, now) == CampaignStatus::Active;
    let ended = |c: CardView| status_of(c, now) == CampaignStatus::Ended;
    assert(status_of(card, now) == CampaignStatus::Active <==> card.end_date >= now);
    if card.end_date >= now {
        cards.lemma_filter_contains(active, i);
    } else {
        cards.lemma_filter_contains(ended, i);
    }
    if cards.filter(active).contains(card) {
        let j = choose|j: int| 0 <= j < cards.filter(active).len() && cards.filter(active)[j] == card;
        cards.lemma_filter_pred(active, j);
    }
    if cards.filter(ended).contains(card) {
        let j = choose|j: int| 0 <= j < cards.filter(ended).len() && cards.filter(ended)[j] == card;
        cards.lemma_filter_pred(ended, j);
    }
}

} // verus!
