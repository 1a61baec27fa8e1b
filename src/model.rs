use vstd::prelude::*;

verus! {

/// Seconds in one day.
pub const SECS_PER_DAY: u64 = 86400;

/// A funding proposal.
#[derive(Clone, Debug)]
pub struct Idea {
    pub title: String,
    pub description: String,
    pub funding_goal: u64,
    pub current_funding: u64,
    pub legal_entity: String,
    /// Lifecycle label such as "pending", "approved" or "rejected".
    pub status: Option<String>,
    pub contact_info: String,
    pub category: String,
    pub business_registration: u8,
    /// Nanoseconds since the epoch.
    pub created_at: u64,
    /// Nanoseconds since the epoch.
    pub updated_at: u64,
    /// Identifiers of the documents attached to this idea, oldest first.
    pub doc_ids: Vec<u64>,
}

/// A document uploaded for an idea.
#[derive(Clone, Debug)]
pub struct Doc {
    pub id: u64,
    pub idea_id: u64,
    pub name: String,
    pub content_type: String,
    pub data: Vec<u8>,
    pub uploaded_at: u64,
}

/// A time-bounded funding drive for an idea.
#[derive(Clone, Debug)]
pub struct Campaign {
    pub id: u64,
    pub idea_id: u64,
    pub amount_raised: u64,
    pub goal: u64,
    /// Seconds since the epoch.
    pub end_date: u64,
}

/// A campaign joined with the display fields of its idea.
#[derive(Clone, Debug)]
pub struct CampaignCard {
    pub id: u64,
    pub idea_id: u64,
    pub title: String,
    pub category: String,
    pub amount_raised: u64,
    pub goal: u64,
    pub end_date: u64,
    /// Whole days until `end_date`, truncated toward zero; negative once ended.
    pub days_left: i64,
}

/// Time-derived classification of a campaign.
#[derive(Clone, Copy, Debug, PartialEq, Eq, Structural)]
pub enum CampaignStatus {
    Active,
    Ended,
}

/// A campaign card together with the whole idea it belongs to.
#[derive(Clone, Debug)]
pub struct CampaignWithIdea {
    pub campaign: CampaignCard,
    pub idea: Idea,
}

/// Why a campaign could not be created.
#[derive(Clone, Copy, Debug, PartialEq, Eq, Structural)]
pub enum CampaignError {
    GoalNotPositive,
    IdeaNotFound,
}

pub ghost struct IdeaView {
    pub title: Seq<char>,
    pub description: Seq<char>,
    pub funding_goal: u64,
    pub current_funding: u64,
    pub legal_entity: Seq<char>,
    pub status: Option<Seq<char>>,
    pub contact_info: Seq<char>,
    pub category: Seq<char>,
    pub business_registration: u8,
    pub created_at: u64,
    pub updated_at: u64,
    pub doc_ids: Seq<u64>,
}

pub ghost struct DocView {
    pub id: u64,
    pub idea_id: u64,
    pub name: Seq<char>,
    pub content_type: Seq<char>,
    pub data: Seq<u8>,
    pub uploaded_at: u64,
}

pub ghost struct CardView {
    pub id: u64,
    pub idea_id: u64,
    pub title: Seq<char>,
    pub category: Seq<char>,
    pub amount_raised: u64,
    pub goal: u64,
    pub end_date: u64,
    pub days_left: int,
}

impl View for Idea {
    type V = IdeaView;

    open spec fn view(&self) -> IdeaView {
        IdeaView {
            title: self.title@,
            description: self.description@,
            funding_goal: self.funding_goal,
            current_funding: self.current_funding,
            legal_entity: self.legal_entity@,
            status: match self.status {
                Some(s) => Some(s@),
                None => None,
            },
            contact_info: self.contact_info@,
            category: self.category@,
            business_registration: self.business_registration,
            created_at: self.created_at,
            updated_at: self.updated_at,
            doc_ids: self.doc_ids@,
        }
    }
}

impl View for Doc {
    type V = DocView;

    open spec fn view(&self) -> DocView {
        DocView {
            id: self.id,
            idea_id: self.idea_id,
            name: self.name@,
            content_type: self.content_type@,
            data: self.data@,
            uploaded_at: self.uploaded_at,
        }
    }
}

impl View for CampaignCard {
    type V = CardView;

    open spec fn view(&self) -> CardView {
        CardView {
            id: self.id,
            idea_id: self.idea_id,
            title: self.title@,
            category: self.category@,
            amount_raised: self.amount_raised,
            goal: self.goal,
            end_date: self.end_date,
            days_left: self.days_left as int,
        }
    }
}

/// Whole days from `now` to `end`, truncated toward zero.
pub open spec fn days_left_of(end: u64, now: u64) -> int {
    if end >= now {
        (end - now) as int / SECS_PER_DAY as int
    } else {
        -((now - end) as int / SECS_PER_DAY as int)
    }
}

/// The card of campaign `c` joined with `idea`, seen at `now` (seconds).
pub open spec fn card_of(c: Campaign, idea: IdeaView, now: u64) -> CardView {
    CardView {
        id: c.id,
        idea_id: c.idea_id,
        title: idea.title,
        category: idea.category,
        amount_raised: c.amount_raised,
        goal: c.goal,
        end_date: c.end_date,
        days_left: days_left_of(c.end_date, now),
    }
}

/// The classification of a card at `now`: active while it has not ended.
pub open spec fn status_of(card: CardView, now: u64) -> CampaignStatus {
    if card.days_left >= 0 && card.end_date >= now {
        CampaignStatus::Active
    } else {
        CampaignStatus::Ended
    }
}

impl Doc {
    /// A copy of this document.
    pub fn duplicate(&self) -> (r: Doc)
        ensures
            r@ == self@,
    {
        let mut data: Vec<u8> = Vec::new();
        let mut i: usize = 0;
        while i < self.data.len()
            invariant
                i <= self.data.len(),
                data@ == self.data@.subrange(0, i as int),
            decreases self.data.len() - i,
        {
            data.push(self.data[i]);
            i = i + 1;
            assert(data@ =~= self.data@.subrange(0, i as int));
        }
        assert(data@ =~= self.data@);
        Doc {
            id: self.id,
            idea_id: self.idea_id,
            name: self.name.clone(),
            content_type: self.content_type.clone(),
            data,
            uploaded_at: self.uploaded_at,
        }
    }
}

impl CampaignError {
    /// The message shown to a caller for this error.
    pub fn message(&self) -> (r: String)
        ensures
            r@ == error_message(*self),
    {
        match self {
            CampaignError::GoalNotPositive => String::from_str("goal must be > 0"),
            CampaignError::IdeaNotFound => String::from_str("idea_id not found"),
        }
    }
}

/// The text of each campaign error.
pub open spec fn error_message(e: CampaignError) -> Seq<char> {
    match e {
        CampaignError::GoalNotPositive => "goal must be > 0"@,
        CampaignError::IdeaNotFound => "idea_id not found"@,
    }
}

/// Whole days from `now` to `end_date`, truncated toward zero.
pub fn days_left(end_date: u64, now: u64) -> (r: i64)
    ensures
        r as int == days_left_of(end_date, now),
{
    if end_date >= now {
        ((end_date - now) / SECS_PER_DAY) as i64
    } else {
        -(((now - end_date) / SECS_PER_DAY) as i64)
    }
}

/// The card of campaign `c` joined with `idea`, seen at `now` (seconds).
pub fn to_card(c: &Campaign, idea: &Idea, now: u64) -> (r: CampaignCard)
    ensures
        r@ == card_of(*c, idea@, now),
{
    CampaignCard {
        id: c.id,
        idea_id: c.idea_id,
        title: idea.title.clone(),
        category: idea.category.clone(),
        amount_raised: c.amount_raised,
        goal: c.goal,
        end_date: c.end_date,
        days_left: days_left(c.end_date, now),
    }
}

/// The classification of `card` at `now` (seconds).
pub fn card_status(card: &CampaignCard, now: u64) -> (r: CampaignStatus)
    ensures
        r == status_of(card@, now),
{
    if card.days_left >= 0 && card.end_date >= now {
        CampaignStatus::Active
    } else {
        CampaignStatus::Ended
    }
}

} // verus!
