use fundverse::errors::FundError;
use fundverse::escrow::FundingLedger;
use fundverse::escrow_types::{
    CampaignMeta, EscrowStatus, ICPTransferStatus, MetaSnapshot, PaymentMethod, ReleasePlan,
};
use fundverse::pk::Pk;

const SEC: u64 = 1_000_000_000;

fn operator() -> Pk {
    Pk(vec![9, 9, 9])
}

fn escrow_account() -> Pk {
    Pk(vec![8, 8, 8])
}

fn ledger() -> FundingLedger {
    FundingLedger::new(operator(), escrow_account())
}

fn registered(ledger: &mut FundingLedger, bytes: Vec<u8>) -> Pk {
    let p = Pk(bytes);
    ledger
        .register_user(&p, "Backer".to_string(), "backer@example.com".to_string(), 1)
        .unwrap();
    p
}

fn meta(goal: u64, end_date_secs: u64) -> MetaSnapshot {
    MetaSnapshot::Known(CampaignMeta { campaign_id: 7, goal, amount_raised: 0, end_date_secs })
}

#[test]
fn register_and_lookup() {
    let mut l = ledger();
    let p = Pk(vec![1]);
    assert!(!l.is_registered(&p));
    l.register_user(&p, "Ada".to_string(), "ada@example.com".to_string(), 5)
        .unwrap();
    assert!(l.is_registered(&p));
    let profile = l.get_my_profile(&p).unwrap();
    assert_eq!(profile.name, "Ada");
    assert_eq!(profile.email, "ada@example.com");
    assert_eq!(profile.registered_at_ns, 5);
}

#[test]
fn register_rejects_empty_fields() {
    let mut l = ledger();
    let p = Pk(vec![1]);
    assert_eq!(
        l.register_user(&p, "".to_string(), "a@example.com".to_string(), 5),
        Err(FundError::InvalidInput)
    );
    assert_eq!(
        l.register_user(&p, "Ada".to_string(), "".to_string(), 5),
        Err(FundError::InvalidInput)
    );
    assert!(!l.is_registered(&p));
}

#[test]
fn register_overwrites_by_identity() {
    let mut l = ledger();
    let p = Pk(vec![1]);
    l.register_user(&p, "Ada".to_string(), "a@example.com".to_string(), 5)
        .unwrap();
    l.register_user(&p, "Ada L".to_string(), "b@example.com".to_string(), 6)
        .unwrap();
    assert_eq!(l.users.len(), 1);
    let profile = l.get_my_profile(&p).unwrap();
    assert_eq!(profile.name, "Ada L");
    assert_eq!(profile.registered_at_ns, 6);
}

#[test]
fn contribute_zero_amount_is_invalid_input() {
    let mut l = ledger();
    let p = registered(&mut l, vec![1]);
    let r = l.contribute(&p, 7, 0, PaymentMethod::BankTransfer, &meta(1000, 1000), 500 * SEC);
    assert_eq!(r, Err(FundError::InvalidInput));
    assert!(l.contributions.is_empty());
}

#[test]
fn unregistered_contribute_is_unauthorized_and_ledger_unchanged() {
    let mut l = ledger();
    let p = Pk(vec![1]);
    let r = l.contribute(&p, 7, 100, PaymentMethod::BankTransfer, &meta(1000, 1000), 500 * SEC);
    assert_eq!(r, Err(FundError::Unauthorized));
    assert!(l.contributions.is_empty());
    assert_eq!(l.next_contribution_id(), 1);
}

#[test]
fn contribute_upstream_unavailable() {
    let mut l = ledger();
    let p = registered(&mut l, vec![1]);
    let r = l.contribute(&p, 7, 100, PaymentMethod::Fawry, &MetaSnapshot::Unavailable, 500 * SEC);
    assert_eq!(r, Err(FundError::UpstreamUnavailable));
    assert!(l.contributions.is_empty());
}

#[test]
fn contribute_unknown_campaign_is_not_found() {
    let mut l = ledger();
    let p = registered(&mut l, vec![1]);
    let r = l.contribute(&p, 7, 100, PaymentMethod::Fawry, &MetaSnapshot::Missing, 500 * SEC);
    assert_eq!(r, Err(FundError::NotFound));
}

#[test]
fn contribute_after_end_date_is_campaign_ended() {
    let mut l = ledger();
    let p = registered(&mut l, vec![1]);
    let r = l.contribute(&p, 7, 100, PaymentMethod::PayMob, &meta(1000, 1000), 2000 * SEC);
    assert_eq!(r, Err(FundError::CampaignEnded));
}

#[test]
fn contribute_creates_pending_record() {
    let mut l = ledger();
    let p = registered(&mut l, vec![1]);
    let id = l
        .contribute(&p, 7, 250, PaymentMethod::BankTransfer, &meta(1000, 1000), 500 * SEC)
        .unwrap();
    assert_eq!(id, 1);
    let c = l.get_contribution(1).unwrap();
    assert_eq!(c.campaign_id, 7);
    assert_eq!(c.amount, 250);
    assert_eq!(c.status, EscrowStatus::Pending);
    assert_eq!(c.created_at_ns, 500 * SEC);
    assert_eq!(c.confirmed_at_ns, None);
    assert_eq!(c.icp_transfer_id, None);
}

#[test]
fn contribute_icp_links_confirmed_transfer() {
    let mut l = ledger();
    let p = registered(&mut l, vec![1]);
    let id = l.contribute_icp(&p, 7, 600, &meta(1000, 1000), 500 * SEC).unwrap();
    assert_eq!(id, 1);
    let c = l.get_contribution(1).unwrap();
    assert_eq!(c.icp_transfer_id, Some(1));
    assert_eq!(l.check_icp_transfer_status(1), Ok(ICPTransferStatus::Confirmed));
    let t = &l.transfers[0];
    assert_eq!(t.amount_e8s, 600);
    assert_eq!(t.memo, 7);
    assert_eq!(t.from.0, vec![1]);
    assert_eq!(t.to.0, escrow_account().0);
}

#[test]
fn transfer_status_of_unknown_id_is_not_found() {
    let l = ledger();
    assert_eq!(l.check_icp_transfer_status(3), Err(FundError::NotFound));
}

#[test]
fn confirm_moves_pending_to_held() {
    let mut l = ledger();
    let op = operator();
    let p = registered(&mut l, vec![1]);
    let id = l.contribute_icp(&p, 7, 600, &meta(1000, 1000), 500 * SEC).unwrap();
    let notice = l.prepare_confirm(&op, id).unwrap();
    assert_eq!(notice.campaign_id, 7);
    assert_eq!(notice.amount, 600);
    l.confirm_payment(&op, id, 600 * SEC).unwrap();
    let c = l.get_contribution(id).unwrap();
    assert_eq!(c.status, EscrowStatus::Held);
    assert_eq!(c.confirmed_at_ns, Some(600 * SEC));
}

#[test]
fn confirm_requires_the_operator() {
    let mut l = ledger();
    let p = registered(&mut l, vec![1]);
    let id = l.contribute_icp(&p, 7, 600, &meta(1000, 1000), 500 * SEC).unwrap();
    assert_eq!(l.confirm_payment(&p, id, 600 * SEC), Err(FundError::Unauthorized));
    assert_eq!(l.get_contribution(id).unwrap().status, EscrowStatus::Pending);
}

#[test]
fn confirm_unknown_contribution_is_not_found() {
    let mut l = ledger();
    let op = operator();
    assert_eq!(l.confirm_payment(&op, 1, 0), Err(FundError::NotFound));
}

#[test]
fn confirm_on_held_fails_invalid_state_and_leaves_status() {
    let mut l = ledger();
    let op = operator();
    let p = registered(&mut l, vec![1]);
    let id = l.contribute_icp(&p, 7, 600, &meta(1000, 1000), 500 * SEC).unwrap();
    l.confirm_payment(&op, id, 600 * SEC).unwrap();
    assert_eq!(l.confirm_payment(&op, id, 700 * SEC), Err(FundError::InvalidState));
    let c = l.get_contribution(id).unwrap();
    assert_eq!(c.status, EscrowStatus::Held);
    assert_eq!(c.confirmed_at_ns, Some(600 * SEC));
}

#[test]
fn confirm_on_released_and_refunded_fails_invalid_state() {
    let mut l = ledger();
    let op = operator();
    let p = registered(&mut l, vec![1]);
    let released = l.contribute_icp(&p, 7, 1200, &meta(1000, 1000), 500 * SEC).unwrap();
    l.confirm_payment(&op, released, 600 * SEC).unwrap();
    let plan = l.prepare_release(&op, 7, &meta(1000, 1000), 2000 * SEC).unwrap();
    assert_eq!(plan, ReleasePlan::Payout { total_held: 1200 });
    l.release_campaign(7).unwrap();
    assert_eq!(l.confirm_payment(&op, released, 0), Err(FundError::InvalidState));
    assert_eq!(l.get_contribution(released).unwrap().status, EscrowStatus::Released);

    let refunded = l.contribute(&p, 8, 50, PaymentMethod::Fawry, &meta(1000, 1000), 500 * SEC)
        .unwrap();
    l.refund_campaign(&op, 8).unwrap();
    assert_eq!(l.confirm_payment(&op, refunded, 0), Err(FundError::InvalidState));
    assert_eq!(l.get_contribution(refunded).unwrap().status, EscrowStatus::Refunded);
}

#[test]
fn confirm_with_pending_transfer_fails_and_stays_pending() {
    let mut l = ledger();
    let op = operator();
    let p = registered(&mut l, vec![1]);
    let id = l.contribute_icp(&p, 7, 600, &meta(1000, 1000), 500 * SEC).unwrap();
    // Simulate an asynchronous rail that has not confirmed the movement yet.
    l.transfers[0].status = ICPTransferStatus::Pending;
    l.transfers[0].block_height = None;
    l.transfers[0].confirmed_at_ns = None;
    assert_eq!(l.prepare_confirm(&op, id), Err(FundError::InvalidState));
    assert_eq!(l.confirm_payment(&op, id, 600 * SEC), Err(FundError::InvalidState));
    assert_eq!(l.get_contribution(id).unwrap().status, EscrowStatus::Pending);
}

#[test]
fn release_scenario_reaches_goal_and_pays_out_total() {
    let mut l = ledger();
    let op = operator();
    let a = registered(&mut l, vec![1]);
    let b = registered(&mut l, vec![2]);
    let m = meta(1000, 1000);
    let ca = l.contribute_icp(&a, 7, 600, &m, 500 * SEC).unwrap();
    let cb = l.contribute_icp(&b, 7, 500, &m, 500 * SEC).unwrap();
    l.confirm_payment(&op, ca, 600 * SEC).unwrap();
    l.confirm_payment(&op, cb, 600 * SEC).unwrap();
    let plan = l.prepare_release(&op, 7, &m, 2000 * SEC).unwrap();
    assert_eq!(plan, ReleasePlan::Payout { total_held: 1100 });
    let moved = l.release_campaign(7).unwrap();
    assert_eq!(moved, 2);
    assert_eq!(l.get_contribution(ca).unwrap().status, EscrowStatus::Released);
    assert_eq!(l.get_contribution(cb).unwrap().status, EscrowStatus::Released);
    let s = l.get_escrow_summary(7);
    assert_eq!(s.total_released, 1100);
    assert_eq!(s.total_held, 0);
}

#[test]
fn release_before_end_date_is_campaign_not_ended() {
    let mut l = ledger();
    let op = operator();
    let m = meta(1000, 1000);
    assert_eq!(l.prepare_release(&op, 7, &m, 900 * SEC), Err(FundError::CampaignNotEnded));
}

#[test]
fn release_requires_the_operator() {
    let mut l = ledger();
    let p = registered(&mut l, vec![1]);
    let m = meta(1000, 1000);
    assert_eq!(l.prepare_release(&p, 7, &m, 2000 * SEC), Err(FundError::Unauthorized));
}

#[test]
fn release_upstream_failures() {
    let mut l = ledger();
    let op = operator();
    assert_eq!(
        l.prepare_release(&op, 7, &MetaSnapshot::Unavailable, 2000 * SEC),
        Err(FundError::UpstreamUnavailable)
    );
    assert_eq!(
        l.prepare_release(&op, 7, &MetaSnapshot::Missing, 2000 * SEC),
        Err(FundError::NotFound)
    );
}

#[test]
fn release_below_goal_is_goal_not_reached_and_changes_nothing() {
    let mut l = ledger();
    let op = operator();
    let p = registered(&mut l, vec![1]);
    let m = meta(1000, 1000);
    let id = l.contribute_icp(&p, 7, 300, &m, 500 * SEC).unwrap();
    l.confirm_payment(&op, id, 600 * SEC).unwrap();
    assert_eq!(l.prepare_release(&op, 7, &m, 2000 * SEC), Err(FundError::GoalNotReached));
    assert_eq!(l.get_contribution(id).unwrap().status, EscrowStatus::Held);
    assert!(!l.is_settling(7));
}

#[test]
fn release_commit_without_open_settlement_is_invalid_state() {
    let mut l = ledger();
    assert_eq!(l.release_campaign(7), Err(FundError::InvalidState));
}

#[test]
fn concurrent_settlement_is_serialized_by_the_marker() {
    let mut l = ledger();
    let op = operator();
    let p = registered(&mut l, vec![1]);
    let m = meta(500, 1000);
    let id = l.contribute_icp(&p, 7, 600, &m, 500 * SEC).unwrap();
    l.confirm_payment(&op, id, 600 * SEC).unwrap();
    let plan = l.prepare_release(&op, 7, &m, 2000 * SEC).unwrap();
    assert_eq!(plan, ReleasePlan::Payout { total_held: 600 });
    assert!(l.is_settling(7));
    // A second settlement attempt, and a refund, must wait.
    assert_eq!(l.prepare_release(&op, 7, &m, 2000 * SEC), Err(FundError::InvalidState));
    assert_eq!(l.refund_campaign(&op, 7), Err(FundError::InvalidState));
    assert_eq!(l.confirm_payment(&op, id, 0), Err(FundError::InvalidState));
    l.release_campaign(7).unwrap();
    assert!(!l.is_settling(7));
}

#[test]
fn failed_payout_aborts_and_keeps_contributions_retryable() {
    let mut l = ledger();
    let op = operator();
    let p = registered(&mut l, vec![1]);
    let m = meta(500, 1000);
    let id = l.contribute_icp(&p, 7, 600, &m, 500 * SEC).unwrap();
    l.confirm_payment(&op, id, 600 * SEC).unwrap();
    l.prepare_release(&op, 7, &m, 2000 * SEC).unwrap();
    // The payout notification failed: abandon, nothing moves.
    l.abort_release(7).unwrap();
    assert!(!l.is_settling(7));
    assert_eq!(l.get_contribution(id).unwrap().status, EscrowStatus::Held);
    // The settlement can be retried.
    let plan = l.prepare_release(&op, 7, &m, 2000 * SEC).unwrap();
    assert_eq!(plan, ReleasePlan::Payout { total_held: 600 });
    l.release_campaign(7).unwrap();
    assert_eq!(l.get_contribution(id).unwrap().status, EscrowStatus::Released);
}

#[test]
fn abort_without_open_settlement_is_invalid_state() {
    let mut l = ledger();
    assert_eq!(l.abort_release(7), Err(FundError::InvalidState));
}

#[test]
fn second_release_is_idempotent_with_zero_count_and_no_payout() {
    let mut l = ledger();
    let op = operator();
    let p = registered(&mut l, vec![1]);
    let m = meta(500, 1000);
    let id = l.contribute_icp(&p, 7, 600, &m, 500 * SEC).unwrap();
    l.confirm_payment(&op, id, 600 * SEC).unwrap();
    l.prepare_release(&op, 7, &m, 2000 * SEC).unwrap();
    assert_eq!(l.release_campaign(7).unwrap(), 1);
    // Second settlement: already settled, no payout owed, zero moved.
    let plan = l.prepare_release(&op, 7, &m, 2000 * SEC).unwrap();
    assert_eq!(plan, ReleasePlan::AlreadySettled);
    assert!(!l.is_settling(7));
    assert_eq!(l.get_contribution(id).unwrap().status, EscrowStatus::Released);
}

#[test]
fn refund_scenario_moves_held_to_refunded_without_payout() {
    let mut l = ledger();
    let op = operator();
    let p = registered(&mut l, vec![1]);
    let m = meta(1000, 1000);
    let id = l.contribute(&p, 7, 300, PaymentMethod::BankTransfer, &m, 500 * SEC).unwrap();
    l.confirm_payment(&op, id, 600 * SEC).unwrap();
    let moved = l.refund_campaign(&op, 7).unwrap();
    assert_eq!(moved, 1);
    assert_eq!(l.get_contribution(id).unwrap().status, EscrowStatus::Refunded);
    let s = l.get_escrow_summary(7);
    assert_eq!(s.total_refunded, 300);
    assert_eq!(s.total_held, 0);
}

#[test]
fn refund_covers_pending_and_skips_terminal_states() {
    let mut l = ledger();
    let op = operator();
    let p = registered(&mut l, vec![1]);
    let m = meta(1000, 1000);
    let pending = l.contribute(&p, 7, 100, PaymentMethod::Fawry, &m, 500 * SEC).unwrap();
    let held = l.contribute(&p, 7, 200, PaymentMethod::PayMob, &m, 500 * SEC).unwrap();
    l.confirm_payment(&op, held, 600 * SEC).unwrap();
    let other = l.contribute(&p, 9, 400, PaymentMethod::Fawry, &m, 500 * SEC).unwrap();
    let moved = l.refund_campaign(&op, 7).unwrap();
    assert_eq!(moved, 2);
    assert_eq!(l.get_contribution(pending).unwrap().status, EscrowStatus::Refunded);
    assert_eq!(l.get_contribution(held).unwrap().status, EscrowStatus::Refunded);
    assert_eq!(l.get_contribution(other).unwrap().status, EscrowStatus::Pending);
    // Refunding again moves nothing.
    assert_eq!(l.refund_campaign(&op, 7).unwrap(), 0);
}

#[test]
fn refund_requires_the_operator() {
    let mut l = ledger();
    let p = registered(&mut l, vec![1]);
    assert_eq!(l.refund_campaign(&p, 7), Err(FundError::Unauthorized));
}

#[test]
fn conservation_of_amounts_across_statuses() {
    let mut l = ledger();
    let op = operator();
    let p = registered(&mut l, vec![1]);
    let m = meta(10_000, 1000);
    let pending = l.contribute(&p, 7, 100, PaymentMethod::Fawry, &m, 500 * SEC).unwrap();
    let held = l.contribute(&p, 7, 200, PaymentMethod::PayMob, &m, 500 * SEC).unwrap();
    l.confirm_payment(&op, held, 600 * SEC).unwrap();
    let _ = pending;
    let refunded = l.contribute(&p, 8, 400, PaymentMethod::Fawry, &m, 500 * SEC).unwrap();
    l.refund_campaign(&op, 8).unwrap();
    let _ = refunded;
    let s7 = l.get_escrow_summary(7);
    let s8 = l.get_escrow_summary(8);
    let total: u64 = l.contributions.iter().map(|c| c.amount).sum();
    let partition = s7.total_pending + s7.total_held + s7.total_released + s7.total_refunded
        + s8.total_pending + s8.total_held + s8.total_released + s8.total_refunded;
    assert_eq!(total, 700);
    assert_eq!(partition, total);
}

#[test]
fn queries_filter_by_backer_and_campaign() {
    let mut l = ledger();
    let a = registered(&mut l, vec![1]);
    let b = registered(&mut l, vec![2]);
    let m = meta(1000, 1000);
    l.contribute(&a, 7, 10, PaymentMethod::Fawry, &m, 500 * SEC).unwrap();
    l.contribute(&b, 7, 20, PaymentMethod::Fawry, &m, 500 * SEC).unwrap();
    l.contribute(&a, 8, 30, PaymentMethod::Fawry, &m, 500 * SEC).unwrap();
    let of_a = l.get_contributions_by_user(&a);
    assert_eq!(of_a.len(), 2);
    assert_eq!(of_a[0].amount, 10);
    assert_eq!(of_a[1].amount, 30);
    let of_7 = l.get_campaign_contributions(7);
    assert_eq!(of_7.len(), 2);
    assert_eq!(of_7[0].amount, 10);
    assert_eq!(of_7[1].amount, 20);
    l.contribute_icp(&a, 7, 40, &m, 500 * SEC).unwrap();
    l.contribute_icp(&b, 7, 50, &m, 500 * SEC).unwrap();
    let transfers_of_a = l.get_icp_transfers_by_user(&a);
    assert_eq!(transfers_of_a.len(), 1);
    assert_eq!(transfers_of_a[0].amount_e8s, 40);
}

#[test]
fn ids_are_assigned_monotonically() {
    let mut l = ledger();
    let p = registered(&mut l, vec![1]);
    let m = meta(1000, 1000);
    assert_eq!(l.next_contribution_id(), 1);
    assert_eq!(l.next_transfer_id(), 1);
    let first = l.contribute(&p, 7, 10, PaymentMethod::Fawry, &m, 500 * SEC).unwrap();
    let second = l.contribute_icp(&p, 7, 20, &m, 500 * SEC).unwrap();
    assert_eq!((first, second), (1, 2));
    assert_eq!(l.next_contribution_id(), 3);
    assert_eq!(l.next_transfer_id(), 2);
}

#[test]
fn error_descriptions_are_not_empty() {
    let all = [
        FundError::InvalidInput,
        FundError::Unauthorized,
        FundError::NotFound,
        FundError::InvalidState,
        FundError::CampaignNotEnded,
        FundError::CampaignEnded,
        FundError::GoalNotReached,
        FundError::UpstreamUnavailable,
    ];
    for e in all {
        assert!(!e.describe().is_empty());
    }
}
