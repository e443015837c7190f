use fundverse::backend::{now_secs, to_card, Backend, Campaign, CampaignStatus};
use fundverse::errors::FundError;

const SEC: u64 = 1_000_000_000;

fn store_with_idea() -> Backend {
    let mut b = Backend::new();
    let id = b.create_idea(
        "Solar kiosk".to_string(),
        "Off-grid charging stations".to_string(),
        50_000,
        "Kiosk LLC".to_string(),
        "team@example.com".to_string(),
        "technology".to_string(),
        1,
        10 * SEC,
    );
    assert_eq!(id, 1);
    b
}

#[test]
fn now_secs_truncates_nanoseconds() {
    assert_eq!(now_secs(0), 0);
    assert_eq!(now_secs(999_999_999), 0);
    assert_eq!(now_secs(1_000_000_000), 1);
    assert_eq!(now_secs(86_400 * SEC + 5), 86_400);
}

#[test]
fn create_idea_starts_pending_with_no_funding() {
    let b = store_with_idea();
    let idea = b.get_idea_by_id(1).unwrap();
    assert_eq!(idea.title, "Solar kiosk");
    assert_eq!(idea.current_funding, 0);
    assert_eq!(idea.status.as_deref(), Some("pending"));
    assert!(idea.doc_ids.is_empty());
    assert!(b.get_idea_by_id(2).is_none());
}

#[test]
fn upload_doc_attaches_to_the_idea() {
    let mut b = store_with_idea();
    let doc_id = b
        .upload_doc(1, "plan.pdf".to_string(), "application/pdf".to_string(), vec![1, 2, 3], 11)
        .unwrap();
    assert_eq!(doc_id, 1);
    let doc = b.get_doc(1).unwrap();
    assert_eq!(doc.idea_id, 1);
    assert_eq!(doc.data, vec![1, 2, 3]);
    assert_eq!(b.get_idea_by_id(1).unwrap().doc_ids, vec![1]);
    assert!(b.get_doc(2).is_none());
    assert!(b
        .upload_doc(9, "x".to_string(), "text/plain".to_string(), vec![], 11)
        .is_none());
}

#[test]
fn create_campaign_validates_goal_and_idea() {
    let mut b = store_with_idea();
    assert_eq!(b.create_campaign(1, 0, 1000), Err(FundError::InvalidInput));
    assert_eq!(b.create_campaign(9, 1000, 1000), Err(FundError::NotFound));
    let id = b.create_campaign(1, 1000, 2000).unwrap();
    assert_eq!(id, 1);
    let c = b.get_campaign(1).unwrap();
    assert_eq!(c.idea_id, 1);
    assert_eq!(c.goal, 1000);
    assert_eq!(c.amount_raised, 0);
    assert!(b.get_campaign(2).is_none());
}

#[test]
fn update_campaign_amount_overwrites() {
    let mut b = store_with_idea();
    b.create_campaign(1, 1000, 2000).unwrap();
    b.update_campaign_amount(1, 750);
    assert_eq!(b.get_campaign(1).unwrap().amount_raised, 750);
    // An unknown id is a no-op.
    b.update_campaign_amount(5, 999);
    assert_eq!(b.get_campaign(1).unwrap().amount_raised, 750);
}

#[test]
fn campaign_meta_reports_the_snapshot() {
    let mut b = store_with_idea();
    b.create_campaign(1, 1000, 2000).unwrap();
    b.update_campaign_amount(1, 300);
    let m = b.get_campaign_meta(1).unwrap();
    assert_eq!(m.campaign_id, 1);
    assert_eq!(m.goal, 1000);
    assert_eq!(m.amount_raised, 300);
    assert_eq!(m.end_date_secs, 2000);
    assert!(b.get_campaign_meta(2).is_none());
}

#[test]
fn receive_icp_contribution_credits_campaign_and_idea() {
    let mut b = store_with_idea();
    b.create_campaign(1, 1000, 2000).unwrap();
    assert_eq!(b.receive_icp_contribution(5, 100, 12 * SEC), Err(FundError::NotFound));
    b.receive_icp_contribution(1, 100, 12 * SEC).unwrap();
    b.receive_icp_contribution(1, 250, 13 * SEC).unwrap();
    assert_eq!(b.get_icp_contribution(1), 350);
    assert_eq!(b.get_icp_contribution(2), 0);
    assert_eq!(b.get_campaign(1).unwrap().amount_raised, 350);
    let idea = b.get_idea_by_id(1).unwrap();
    assert_eq!(idea.current_funding, 350);
    assert_eq!(idea.updated_at, 13 * SEC);
}

#[test]
fn total_funding_adds_campaign_and_credits() {
    let mut b = store_with_idea();
    b.create_campaign(1, 1000, 2000).unwrap();
    b.update_campaign_amount(1, 40);
    b.receive_icp_contribution(1, 0, 12 * SEC).unwrap();
    assert_eq!(b.get_campaign_total_funding(1), 40);
    b.receive_icp_contribution(1, 60, 12 * SEC).unwrap();
    // The credit also raised the campaign amount: 100 raised + 60 credited.
    assert_eq!(b.get_campaign_total_funding(1), 160);
    assert_eq!(b.get_campaign_total_funding(9), 0);
}

#[test]
fn days_left_formula() {
    let idea_holder = store_with_idea();
    let idea = idea_holder.get_idea_by_id(1).unwrap();
    let c = Campaign { id: 1, idea_id: 1, amount_raised: 0, goal: 10, end_date: 200_000 };
    let card = to_card(&c, &idea, 27_200);
    assert_eq!(card.days_left, (200_000 - 27_200) / 86_400);
    assert_eq!(card.days_left, 2);
    assert_eq!(card.title, "Solar kiosk");
    let ended = to_card(&c, &idea, 300_000);
    assert_eq!(ended.days_left, 0);
}

#[test]
fn cards_join_campaigns_with_ideas() {
    let mut b = store_with_idea();
    b.create_campaign(1, 1000, 2000).unwrap();
    b.create_campaign(1, 500, 9000).unwrap();
    let cards = b.get_campaign_cards(1500);
    assert_eq!(cards.len(), 2);
    assert_eq!(cards[0].id, 1);
    assert_eq!(cards[1].goal, 500);
    assert_eq!(cards[0].category, "technology");
}

#[test]
fn cards_filter_by_status() {
    let mut b = store_with_idea();
    b.create_campaign(1, 1000, 2000).unwrap();
    b.create_campaign(1, 500, 9000).unwrap();
    let active = b.get_campaign_cards_by_status(CampaignStatus::Active, 5000);
    assert_eq!(active.len(), 1);
    assert_eq!(active[0].end_date, 9000);
    let ended = b.get_campaign_cards_by_status(CampaignStatus::Ended, 5000);
    assert_eq!(ended.len(), 1);
    assert_eq!(ended[0].end_date, 2000);
}

#[test]
fn campaign_with_idea_joins_both_records() {
    let mut b = store_with_idea();
    b.create_campaign(1, 1000, 2000).unwrap();
    let joined = b.get_campaign_with_idea(1, 100).unwrap();
    assert_eq!(joined.campaign.goal, 1000);
    assert_eq!(joined.idea.title, "Solar kiosk");
    assert!(b.get_campaign_with_idea(2, 100).is_none());
}
