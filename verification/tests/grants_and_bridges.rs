use prorata_ledger::cross_chain_bridge::CrossChainBridge;
use prorata_ledger::etf_token::ETFToken;
use prorata_ledger::grant_tracker::{GrantStatus, GrantTracker};
use prorata_ledger::zk_transaction::ZKTransaction;

fn s(text: &str) -> String {
    text.to_string()
}

#[test]
fn grant_lifecycle_to_completion() {
    let mut g = GrantTracker::new(s("authority"));
    let id = g.submit_grant(
        s("lab"),
        1_000,
        vec![(s("phase one"), 400), (s("phase two"), 600)],
    );
    assert_eq!(id, 1);
    assert_eq!(g.approve("mallory", id, 1_000), Err("only authority"));
    assert_eq!(g.disburse("authority", id, 100), Err("not approved"));
    assert_eq!(g.approve("authority", id, 1_000), Ok(()));
    assert_eq!(g.approve("authority", id, 1_000), Err("invalid state"));
    assert_eq!(g.disburse("authority", id, 1_001), Err("exceeds approval"));
    assert_eq!(g.disburse("authority", id, 400), Ok(()));
    assert_eq!(g.mark_milestone("authority", id, 2), Err("invalid milestone"));
    assert_eq!(g.mark_milestone("authority", id, 0), Ok(()));
    assert_eq!(g.mark_milestone("authority", id, 1), Ok(()));
    // The last disbursement, with all milestones complete, completes the
    // grant.
    assert_eq!(g.disburse("authority", id, 600), Ok(()));
    assert!(g.grants.get(id).unwrap().status == GrantStatus::Completed);
    assert_eq!(g.disburse("authority", id, 1), Err("not approved"));
    assert_eq!(g.approve("authority", 9, 1), Err("not found"));
}

#[test]
fn grant_rejection() {
    let mut g = GrantTracker::new(s("authority"));
    let id = g.submit_grant(s("lab"), 10, vec![]);
    assert_eq!(g.reject("authority", id), Ok(()));
    assert!(g.grants.get(id).unwrap().status == GrantStatus::Rejected);
    assert_eq!(g.approve("authority", id, 10), Err("invalid state"));
}

#[test]
fn bridge_lock_and_release() {
    let mut b = CrossChainBridge::new(s("admin"));
    b.lock(s("alice"), 100);
    b.lock(s("alice"), 50);
    assert_eq!(b.balances.get("alice").copied(), Some(150));
    assert_eq!(b.release("mallory", s("alice"), 10), Err("admin"));
    assert_eq!(b.release("admin", s("alice"), 151), Err("insufficient"));
    assert_eq!(b.release("admin", s("alice"), 150), Ok(()));
    assert_eq!(b.balances.get("alice").copied(), Some(0));
    assert_eq!(b.release("admin", s("bob"), 1), Err("insufficient"));
}

#[test]
fn proof_gated_log_bookkeeping() {
    let mut z = ZKTransaction::new(s("key"));
    assert_eq!(
        z.submit_transaction(s("a"), s("b"), 5, s("bad"), false),
        Err("invalid proof")
    );
    assert_eq!(z.next_id, 0);
    let id = z
        .submit_transaction(s("a"), s("b"), 5, s("good"), true)
        .unwrap();
    assert_eq!(id, 1);
    assert!(!z.transactions.get(id).unwrap().executed);
    assert_eq!(z.execute(9), Err("not found"));
    assert_eq!(z.execute(id), Ok(()));
    assert!(z.transactions.get(id).unwrap().executed);
    assert_eq!(z.execute(id), Err("executed"));
}

#[test]
fn etf_liquidity_failure_changes_nothing() {
    let mut etf = ETFToken::new(s("mgr"));
    etf.deposit_asset("mgr", s("bond"), 100).unwrap();
    // All cash is consumed as collateral, so any positive redemption value
    // exceeds the reserve.
    etf.mint_shares("mgr", s("a"), 10, 100).unwrap();
    assert_eq!(etf.redeem_shares("a", 5), Err("insufficient liquidity"));
    assert_eq!(etf.balances.get("a").copied(), Some(10));
    assert_eq!(etf.share_supply, 10);
    assert_eq!(etf.cash_reserve, 0);
}
