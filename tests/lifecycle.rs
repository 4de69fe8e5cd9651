use for_my_future::funding::{funds_percentage, is_reclaimable};
use for_my_future::{ContractError, ForMyFuture, Proposal, ProposalStatus, DEFAULT_ADMIN};

fn s(x: &str) -> String {
    x.to_string()
}

fn open_proposal(c: &mut ForMyFuture, owner: &str, amount: u128, finish: u64) -> Result<Proposal, ContractError> {
    c.create_proposal(
        &s(owner),
        10,
        s("Studies"),
        s("Master degree"),
        s("https://uni.example"),
        s("https://uni.example/pensum"),
        vec![s("pic1")],
        amount,
        s("Two years of study"),
        finish,
    )
}

fn with_alice_proposal() -> ForMyFuture {
    let mut c = ForMyFuture::new(s("admin"));
    c.login(&s("alice"));
    open_proposal(&mut c, "alice", 100, 1000).unwrap();
    c
}

#[test]
fn create_proposal_opens_it() {
    let mut c = ForMyFuture::new(s("admin"));
    c.login(&s("alice"));
    let p = open_proposal(&mut c, "alice", 100, 1000).unwrap();
    assert_eq!(p.status, ProposalStatus::Open);
    assert_eq!(p.funds, 0);
    assert_eq!(p.index, 1);
    assert_eq!(p.amount_needed, 100);
    assert_eq!(p.init_date, 10);
    assert_eq!(p.finish_date, 1000);
    assert_eq!(p.user, "alice");
    assert!(!p.is_reclaimable);
    assert!(c.get_user(&s("alice")).unwrap().with_active_proposal);
    assert_eq!(c.get_proposal(1).unwrap().title, "Studies");
}

#[test]
fn contribution_below_threshold_keeps_funds_locked() {
    let mut c = with_alice_proposal();
    let k = c.contribute(&s("bob"), 20, 60, 1, s("good luck")).unwrap();
    assert_eq!(k.amount, 60);
    assert_eq!(k.contribution_id, 1);
    assert_eq!(k.to, "alice");
    assert_eq!(k.by, "bob");
    let p = c.get_proposal(1).unwrap();
    assert_eq!(p.funds, 60);
    assert!(!p.is_reclaimable);
    assert_eq!(c.get_proposal_funds_percentage(1), Ok(60));
    assert_eq!(c.reclaim_payout(&s("alice"), 1).unwrap_err(), ContractError::ThresholdNotMet);
    assert_eq!(c.reclaim_funds(&s("alice"), 1, true).unwrap_err(), ContractError::ThresholdNotMet);
}

#[test]
fn contribution_past_threshold_makes_reclaimable() {
    let mut c = with_alice_proposal();
    c.contribute(&s("bob"), 20, 60, 1, s("")).unwrap();
    let k = c.contribute(&s("carol"), 21, 20, 1, s("")).unwrap();
    assert_eq!(k.contribution_id, 2);
    let p = c.get_proposal(1).unwrap();
    assert_eq!(p.funds, 80);
    assert!(p.is_reclaimable);
    assert_eq!(c.get_proposal_funds_percentage(1), Ok(80));
}

#[test]
fn reclaim_settles_exactly_once() {
    let mut c = with_alice_proposal();
    c.contribute(&s("bob"), 20, 60, 1, s("")).unwrap();
    c.contribute(&s("carol"), 21, 20, 1, s("")).unwrap();
    let pay = c.reclaim_payout(&s("alice"), 1).unwrap();
    assert_eq!(pay.to, "alice");
    assert_eq!(pay.amount, 80);
    let p = c.reclaim_funds(&s("alice"), 1, true).unwrap();
    assert_eq!(p.status, ProposalStatus::Settled);
    assert!(!c.get_user(&s("alice")).unwrap().with_active_proposal);
    assert_eq!(c.reclaim_funds(&s("alice"), 1, true).unwrap_err(), ContractError::NotReclaimable);
    assert_eq!(c.reclaim_payout(&s("alice"), 1).unwrap_err(), ContractError::NotReclaimable);
}

#[test]
fn contribute_after_deadline_or_to_paused_fails() {
    let mut c = with_alice_proposal();
    assert_eq!(c.contribute(&s("bob"), 1000, 10, 1, s("")).unwrap_err(), ContractError::ProposalExpired);
    assert_eq!(c.contribute(&s("bob"), 5000, 10, 1, s("")).unwrap_err(), ContractError::ProposalExpired);
    let p = c.pause_proposal(&s("admin"), 1).unwrap();
    assert_eq!(p.status, ProposalStatus::Paused);
    assert_eq!(c.contribute(&s("alice"), 20, 10, 1, s("")).unwrap_err(), ContractError::ProposalNotOpen);
    assert_eq!(c.reclaim_funds(&s("alice"), 1, true).unwrap_err(), ContractError::NotReclaimable);
}

#[test]
fn second_open_proposal_is_refused() {
    let mut c = with_alice_proposal();
    assert_eq!(open_proposal(&mut c, "alice", 50, 1000).unwrap_err(), ContractError::AlreadyHasActiveProposal);
    assert_eq!(c.get_proposals().len(), 1);
}

#[test]
fn new_proposal_allowed_after_settlement() {
    let mut c = with_alice_proposal();
    c.contribute(&s("bob"), 20, 100, 1, s("")).unwrap();
    c.reclaim_funds(&s("alice"), 1, true).unwrap();
    let p = open_proposal(&mut c, "alice", 50, 2000).unwrap();
    assert_eq!(p.index, 2);
}

#[test]
fn create_proposal_errors() {
    let mut c = ForMyFuture::new(s("admin"));
    assert_eq!(open_proposal(&mut c, "alice", 100, 1000).unwrap_err(), ContractError::UnknownCaller);
    c.login(&s("alice"));
    assert_eq!(open_proposal(&mut c, "alice", 0, 1000).unwrap_err(), ContractError::InvalidAmount);
    assert!(c.get_proposals().is_empty());
}

#[test]
fn contribute_errors() {
    let mut c = with_alice_proposal();
    assert_eq!(c.contribute(&s("bob"), 20, 10, 2, s("")).unwrap_err(), ContractError::NotFound);
    assert_eq!(c.contribute(&s("bob"), 20, 10, 0, s("")).unwrap_err(), ContractError::NotFound);
    assert_eq!(c.contribute(&s("bob"), 20, 0, 1, s("")).unwrap_err(), ContractError::InvalidAmount);
    assert_eq!(c.contribute(&s("bob"), 20, 101, 1, s("")).unwrap_err(), ContractError::OverContribution);
    c.contribute(&s("bob"), 20, 90, 1, s("")).unwrap();
    assert_eq!(c.contribute(&s("bob"), 20, 11, 1, s("")).unwrap_err(), ContractError::OverContribution);
    let k = c.contribute(&s("bob"), 20, 10, 1, s("")).unwrap();
    assert_eq!(k.contribution_id, 2);
    assert_eq!(c.get_proposal(1).unwrap().funds, 100);
    assert_eq!(c.get_proposal_funds_percentage(1), Ok(100));
}

#[test]
fn refused_contribution_registers_nobody() {
    let mut c = with_alice_proposal();
    assert!(c.contribute(&s("bob"), 20, 0, 1, s("")).is_err());
    assert_eq!(c.get_user(&s("bob")).unwrap_err(), ContractError::NotFound);
    assert_eq!(c.get_users().len(), 1);
}

#[test]
fn contributor_is_registered_with_history() {
    let mut c = with_alice_proposal();
    c.contribute(&s("bob"), 20, 30, 1, s("first")).unwrap();
    c.contribute(&s("bob"), 25, 10, 1, s("second")).unwrap();
    let bob = c.get_user(&s("bob")).unwrap();
    assert_eq!(bob.contributions.len(), 2);
    assert_eq!(bob.contributions[0].comments, "first");
    assert_eq!(bob.contributions[1].contribution_id, 2);
    assert_eq!(bob.contributions[1].date, 25);
    assert!(!bob.with_active_proposal);
    assert_eq!(c.get_users().len(), 2);
}

#[test]
fn reclaim_errors() {
    let mut c = with_alice_proposal();
    c.contribute(&s("bob"), 20, 76, 1, s("")).unwrap();
    assert_eq!(c.reclaim_funds(&s("alice"), 7, true).unwrap_err(), ContractError::NotFound);
    assert_eq!(c.reclaim_funds(&s("bob"), 1, true).unwrap_err(), ContractError::Unauthorized);
    assert_eq!(c.reclaim_funds(&s("alice"), 1, false).unwrap_err(), ContractError::TransferFailed);
    let p = c.get_proposal(1).unwrap();
    assert_eq!(p.status, ProposalStatus::Open);
    assert_eq!(p.funds, 76);
    assert!(c.get_user(&s("alice")).unwrap().with_active_proposal);
    assert_eq!(c.reclaim_funds(&s("alice"), 1, true).unwrap().status, ProposalStatus::Settled);
}

#[test]
fn threshold_is_strict() {
    let mut c = with_alice_proposal();
    c.contribute(&s("bob"), 20, 75, 1, s("")).unwrap();
    assert!(!c.get_proposal(1).unwrap().is_reclaimable);
    assert_eq!(c.reclaim_funds(&s("alice"), 1, true).unwrap_err(), ContractError::ThresholdNotMet);
    c.contribute(&s("bob"), 20, 1, 1, s("")).unwrap();
    assert!(c.get_proposal(1).unwrap().is_reclaimable);
}

#[test]
fn pause_errors() {
    let mut c = with_alice_proposal();
    assert_eq!(c.pause_proposal(&s("alice"), 1).unwrap_err(), ContractError::Unauthorized);
    assert_eq!(c.pause_proposal(&s("admin"), 3).unwrap_err(), ContractError::NotFound);
    c.contribute(&s("bob"), 20, 100, 1, s("")).unwrap();
    c.reclaim_funds(&s("alice"), 1, true).unwrap();
    assert_eq!(c.pause_proposal(&s("admin"), 1).unwrap_err(), ContractError::ProposalNotOpen);
    assert_eq!(c.get_proposal(1).unwrap().status, ProposalStatus::Settled);
}

#[test]
fn default_admin_may_pause() {
    let mut c = ForMyFuture::default();
    c.login(&s("alice"));
    open_proposal(&mut c, "alice", 100, 1000).unwrap();
    assert_eq!(c.pause_proposal(&s(DEFAULT_ADMIN), 1).unwrap().status, ProposalStatus::Paused);
}

#[test]
fn login_is_idempotent() {
    let mut c = ForMyFuture::new(s("admin"));
    let u = c.login(&s("alice"));
    assert_eq!(u.id, "alice");
    assert!(u.contributions.is_empty());
    assert_eq!(u.rank, 0);
    assert_eq!(u.picture, "");
    c.login(&s("alice"));
    assert_eq!(c.get_users().len(), 1);
}

#[test]
fn proposal_ids_increase() {
    let mut c = ForMyFuture::new(s("admin"));
    c.login(&s("alice"));
    c.login(&s("bob"));
    assert_eq!(open_proposal(&mut c, "alice", 10, 100).unwrap().index, 1);
    assert_eq!(open_proposal(&mut c, "bob", 10, 100).unwrap().index, 2);
    assert!(open_proposal(&mut c, "bob", 10, 100).is_err());
    assert_eq!(c.get_proposal_funds_percentage(3), Err(ContractError::NotFound));
    let all = c.get_proposals();
    assert_eq!(all[0].index, 1);
    assert_eq!(all[1].index, 2);
}

#[test]
fn percentage_values() {
    assert_eq!(funds_percentage(0, 100), 0);
    assert_eq!(funds_percentage(1, 3), 33);
    assert_eq!(funds_percentage(2, 3), 66);
    assert_eq!(funds_percentage(7, 7), 100);
    assert_eq!(funds_percentage(u128::MAX, u128::MAX), 100);
    assert_eq!(funds_percentage(u128::MAX - 1, u128::MAX), 99);
    assert_eq!(funds_percentage(u128::MAX / 2, u128::MAX), 49);
    assert_eq!(funds_percentage(u128::MAX / 4 * 3 + 1, u128::MAX), 74);
    assert!(!is_reclaimable(3, 4));
    assert!(is_reclaimable(4, 5));
    assert!(is_reclaimable(u128::MAX / 10 * 8, u128::MAX));
}
