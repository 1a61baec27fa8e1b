use fundverse_backend::model::{
    card_status, days_left, to_card, Campaign, CampaignError, CampaignStatus, Idea,
};
use fundverse_backend::store::Store;

const DAY: u64 = 86_400;
const NOW_SECS: u64 = 1_700_000_000;
const NOW_NANOS: u64 = NOW_SECS * 1_000_000_000;

fn add_idea(store: &mut Store, title: &str) -> Option<u64> {
    store.create_idea(
        title.to_string(),
        "Reusable bottles made from recycled materials".to_string(),
        100_000,
        "EcoCorp LLC".to_string(),
        "contact@ecocorp.example".to_string(),
        "Environment".to_string(),
        1,
        NOW_NANOS,
    )
}

#[test]
fn create_idea_assigns_fresh_ids_and_stores_input() {
    let mut store = Store::new();
    assert_eq!(add_idea(&mut store, "A"), Some(1));
    assert_eq!(add_idea(&mut store, "B"), Some(2));
    let idea = store.get_idea_by_id(2).unwrap();
    assert_eq!(idea.title, "B");
    assert_eq!(idea.description, "Reusable bottles made from recycled materials");
    assert_eq!(idea.funding_goal, 100_000);
    assert_eq!(idea.current_funding, 0);
    assert_eq!(idea.legal_entity, "EcoCorp LLC");
    assert_eq!(idea.status.as_deref(), Some("pending"));
    assert_eq!(idea.contact_info, "contact@ecocorp.example");
    assert_eq!(idea.category, "Environment");
    assert_eq!(idea.business_registration, 1);
    assert_eq!(idea.created_at, NOW_NANOS);
    assert_eq!(idea.updated_at, NOW_NANOS);
    assert!(idea.doc_ids.is_empty());
}

#[test]
fn create_idea_rejects_empty_fields_and_zero_goal() {
    let mut store = Store::new();
    let fields = ["title", "description", "legal", "contact", "category"];
    for empty in 0..fields.len() {
        let v: Vec<String> = fields
            .iter()
            .enumerate()
            .map(|(i, f)| if i == empty { String::new() } else { f.to_string() })
            .collect();
        let r = store.create_idea(
            v[0].clone(),
            v[1].clone(),
            10,
            v[2].clone(),
            v[3].clone(),
            v[4].clone(),
            0,
            NOW_NANOS,
        );
        assert_eq!(r, None);
        assert_eq!(store.idea_count(), 0);
    }
    let r = store.create_idea(
        "t".to_string(),
        "d".to_string(),
        0,
        "l".to_string(),
        "c".to_string(),
        "g".to_string(),
        0,
        NOW_NANOS,
    );
    assert_eq!(r, None);
    assert_eq!(store.idea_count(), 0);
    assert!(store.get_idea_by_id(1).is_none());
}

#[test]
fn create_campaign_unknown_idea_is_an_error() {
    let mut store = Store::new();
    assert_eq!(store.create_campaign(999, 100, NOW_SECS), Err(CampaignError::IdeaNotFound));
    assert_eq!(store.campaign_count(), 0);
    assert!(store.get_campaign_cards(NOW_SECS).is_empty());
    assert_eq!(CampaignError::IdeaNotFound.message(), "idea_id not found");
}

#[test]
fn create_campaign_zero_goal_is_an_error_first() {
    let mut store = Store::new();
    assert_eq!(store.create_campaign(1, 0, NOW_SECS), Err(CampaignError::GoalNotPositive));
    add_idea(&mut store, "A");
    assert_eq!(store.create_campaign(1, 0, NOW_SECS), Err(CampaignError::GoalNotPositive));
    assert_eq!(store.campaign_count(), 0);
    assert_eq!(CampaignError::GoalNotPositive.message(), "goal must be > 0");
}

#[test]
fn upload_doc_appends_to_owning_idea() {
    let mut store = Store::new();
    add_idea(&mut store, "A");
    add_idea(&mut store, "B");
    let d1 = store.upload_doc(2, "plan.pdf".to_string(), "application/pdf".to_string(), vec![1, 2, 3], 5);
    let d2 = store.upload_doc(1, "a.txt".to_string(), "text/plain".to_string(), vec![], 6);
    let d3 = store.upload_doc(2, "b.png".to_string(), "image/png".to_string(), vec![9], 7);
    assert_eq!((d1, d2, d3), (Some(1), Some(2), Some(3)));
    assert_eq!(store.get_idea_by_id(2).unwrap().doc_ids, vec![1, 3]);
    assert_eq!(store.get_idea_by_id(1).unwrap().doc_ids, vec![2]);
    let doc = store.get_doc(1).unwrap();
    assert_eq!(doc.id, 1);
    assert_eq!(doc.idea_id, 2);
    assert_eq!(doc.name, "plan.pdf");
    assert_eq!(doc.content_type, "application/pdf");
    assert_eq!(doc.data, vec![1, 2, 3]);
    assert_eq!(doc.uploaded_at, 5);
}

#[test]
fn upload_doc_unknown_idea_is_absent() {
    let mut store = Store::new();
    add_idea(&mut store, "A");
    let r = store.upload_doc(7, "x".to_string(), "text/plain".to_string(), vec![1], 1);
    assert_eq!(r, None);
    assert_eq!(store.doc_count(), 0);
    assert!(store.get_doc(1).is_none());
    assert!(store.get_idea_by_id(1).unwrap().doc_ids.is_empty());
}

#[test]
fn status_lists_follow_end_date() {
    let mut store = Store::new();
    add_idea(&mut store, "A");
    add_idea(&mut store, "B");
    assert_eq!(store.create_campaign(1, 100_000, NOW_SECS + 7 * DAY), Ok(1));
    assert_eq!(store.create_campaign(2, 100_000, NOW_SECS - 5 * DAY), Ok(2));
    let active = store.get_campaign_cards_by_status(CampaignStatus::Active, NOW_SECS);
    let ended = store.get_campaign_cards_by_status(CampaignStatus::Ended, NOW_SECS);
    assert_eq!(active.iter().map(|c| c.id).collect::<Vec<_>>(), vec![1]);
    assert_eq!(ended.iter().map(|c| c.id).collect::<Vec<_>>(), vec![2]);
    assert_eq!(active[0].days_left, 7);
    assert_eq!(ended[0].days_left, -5);
}

#[test]
fn scenario_one_idea_one_campaign() {
    let mut store = Store::new();
    assert_eq!(add_idea(&mut store, "A"), Some(1));
    assert_eq!(store.create_campaign(1, 100_000, NOW_SECS + 7 * DAY), Ok(1));
    let cards = store.get_campaign_cards(NOW_SECS);
    assert_eq!(cards.len(), 1);
    assert_eq!(cards[0].id, 1);
    assert_eq!(cards[0].idea_id, 1);
    assert_eq!(cards[0].title, "A");
    assert_eq!(cards[0].category, "Environment");
    assert_eq!(cards[0].days_left, 7);
    assert_eq!(cards[0].amount_raised, 0);
    assert_eq!(cards[0].goal, 100_000);
}

#[test]
fn scenario_campaign_for_missing_idea() {
    let mut store = Store::new();
    add_idea(&mut store, "A");
    store.create_campaign(1, 10, NOW_SECS).unwrap();
    let err = store.create_campaign(999, 100, NOW_SECS).unwrap_err();
    assert_eq!(err.message(), "idea_id not found");
    assert_eq!(store.get_campaign_cards(NOW_SECS).len(), 1);
}

#[test]
fn repeated_reads_agree() {
    let mut store = Store::new();
    add_idea(&mut store, "A");
    let a = store.get_idea_by_id(1).unwrap();
    let b = store.get_idea_by_id(1).unwrap();
    assert_eq!(format!("{:?}", a), format!("{:?}", b));
    assert!(store.get_idea_by_id(0).is_none());
    assert!(store.get_idea_by_id(2).is_none());
}

#[test]
fn days_left_truncates_toward_zero() {
    assert_eq!(days_left(NOW_SECS, NOW_SECS), 0);
    assert_eq!(days_left(NOW_SECS + DAY - 1, NOW_SECS), 0);
    assert_eq!(days_left(NOW_SECS + DAY, NOW_SECS), 1);
    assert_eq!(days_left(NOW_SECS - 1, NOW_SECS), 0);
    assert_eq!(days_left(NOW_SECS - DAY - 1, NOW_SECS), -1);
    assert_eq!(days_left(u64::MAX, 0), (u64::MAX / DAY) as i64);
    assert_eq!(days_left(0, u64::MAX), -((u64::MAX / DAY) as i64));
}

#[test]
fn card_status_needs_end_not_passed() {
    let idea = Idea {
        title: "T".to_string(),
        description: "D".to_string(),
        funding_goal: 5,
        current_funding: 0,
        legal_entity: "L".to_string(),
        status: None,
        contact_info: "C".to_string(),
        category: "G".to_string(),
        business_registration: 0,
        created_at: 0,
        updated_at: 0,
        doc_ids: vec![],
    };
    let c = Campaign { id: 3, idea_id: 1, amount_raised: 2, goal: 5, end_date: NOW_SECS - 1 };
    let card = to_card(&c, &idea, NOW_SECS);
    assert_eq!(card.days_left, 0);
    assert_eq!(card.title, "T");
    assert_eq!(card_status(&card, NOW_SECS), CampaignStatus::Ended);
    let c = Campaign { end_date: NOW_SECS, ..c };
    assert_eq!(card_status(&to_card(&c, &idea, NOW_SECS), NOW_SECS), CampaignStatus::Active);
}

#[test]
fn campaign_with_idea_joins_both() {
    let mut store = Store::new();
    add_idea(&mut store, "A");
    add_idea(&mut store, "B");
    store.upload_doc(2, "n".to_string(), "t".to_string(), vec![], 0);
    store.create_campaign(2, 50, NOW_SECS + 3 * DAY).unwrap();
    let w = store.get_campaign_with_idea(1, NOW_SECS).unwrap();
    assert_eq!(w.campaign.id, 1);
    assert_eq!(w.campaign.title, "B");
    assert_eq!(w.campaign.days_left, 3);
    assert_eq!(w.idea.title, "B");
    assert_eq!(w.idea.doc_ids, vec![1]);
    assert!(store.get_campaign_with_idea(0, NOW_SECS).is_none());
    assert!(store.get_campaign_with_idea(2, NOW_SECS).is_none());
}

#[test]
fn stored_idea_reads_back_unchanged() {
    let mut store = Store::new();
    let id = store
        .create_idea(
            "Café ☕ für alle".to_string(),
            "Ünïcödé description".to_string(),
            u64::MAX,
            "Entité SARL".to_string(),
            "x@y.example".to_string(),
            "Food".to_string(),
            u8::MAX,
            u64::MAX,
        )
        .unwrap();
    for _ in 0..3 {
        store.upload_doc(id, "f".to_string(), "t".to_string(), vec![0, 255], 1).unwrap();
    }
    let idea = store.get_idea_by_id(id).unwrap();
    assert_eq!(idea.title, "Café ☕ für alle");
    assert_eq!(idea.description, "Ünïcödé description");
    assert_eq!(idea.funding_goal, u64::MAX);
    assert_eq!(idea.legal_entity, "Entité SARL");
    assert_eq!(idea.business_registration, u8::MAX);
    assert_eq!(idea.created_at, u64::MAX);
    assert_eq!(idea.doc_ids, vec![1, 2, 3]);
    assert_eq!(store.get_doc(3).unwrap().data, vec![0, 255]);
}

#[test]
fn replaying_saved_records_rebuilds_the_store() {
    let mut store = Store::new();
    add_idea(&mut store, "A");
    add_idea(&mut store, "B");
    store.upload_doc(2, "x".to_string(), "t".to_string(), vec![7], 3).unwrap();
    store.upload_doc(1, "y".to_string(), "t".to_string(), vec![8], 4).unwrap();
    store.upload_doc(2, "z".to_string(), "t".to_string(), vec![9], 5).unwrap();
    store.create_campaign(2, 40, NOW_SECS + DAY).unwrap();

    let mut copy = Store::new();
    for id in 1..=store.idea_count() {
        let i = store.get_idea_by_id(id).unwrap();
        let r = copy.restore_idea(
            i.title,
            i.description,
            i.funding_goal,
            i.current_funding,
            i.legal_entity,
            i.status,
            i.contact_info,
            i.category,
            i.business_registration,
            i.created_at,
            i.updated_at,
        );
        assert_eq!(r, Some(id));
    }
    for id in 1..=store.doc_count() as u64 {
        let d = store.get_doc(id).unwrap();
        assert_eq!(copy.upload_doc(d.idea_id, d.name, d.content_type, d.data, d.uploaded_at), Some(id));
    }
    for id in 1..=store.campaign_count() as u64 {
        let c = store.get_campaign(id).unwrap();
        assert_eq!(copy.create_campaign(c.idea_id, c.goal, c.end_date), Ok(id));
    }
    for id in 1..=2 {
        assert_eq!(
            format!("{:?}", copy.get_idea_by_id(id)),
            format!("{:?}", store.get_idea_by_id(id))
        );
    }
    assert_eq!(copy.get_idea_by_id(2).unwrap().doc_ids, vec![1, 3]);
    assert_eq!(copy.get_doc(3).unwrap().data, vec![9]);
    assert_eq!(copy.get_campaign(1).unwrap().idea_id, 2);
}

#[test]
fn restore_idea_refuses_zero_goal() {
    let mut store = Store::new();
    let r = store.restore_idea(
        "t".to_string(),
        "d".to_string(),
        0,
        0,
        "l".to_string(),
        Some("approved".to_string()),
        "c".to_string(),
        "g".to_string(),
        0,
        1,
        2,
    );
    assert_eq!(r, None);
    assert_eq!(store.idea_count(), 0);
    assert!(store.get_campaign(1).is_none());
}
