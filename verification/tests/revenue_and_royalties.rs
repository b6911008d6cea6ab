use prorata_ledger::revenue_share::RevenueShare;
use prorata_ledger::revenue_share_token::RevenueShareToken;
use prorata_ledger::royalty_splitter::RoyaltySplitter;

fn s(text: &str) -> String {
    text.to_string()
}

fn token() -> RevenueShareToken {
    RevenueShareToken::new(s("Share"), s("SHR"), s("owner"))
}

#[test]
fn token_distribute_retains_deferred_value_and_dust() {
    let mut t = token();
    // No supply: the whole amount is retained, holders untouched.
    t.distribute(100);
    assert_eq!(t.undistributed, 100);
    // With supply 3, distributing 10 attributes 9 and retains 1 more.
    t.mint("owner", s("a"), 3).unwrap();
    t.distribute(10);
    assert_eq!(t.undistributed, 101);
    assert_eq!(t.claim("a"), Ok(9));
}

#[test]
fn token_mint_requires_owner() {
    let mut t = token();
    assert_eq!(t.mint("mallory", s("a"), 10), Err("only owner"));
    assert_eq!(t.mint("owner", s("a"), 10), Ok(()));
    assert_eq!(t.total_supply, 10);
}

#[test]
fn token_burn_errors() {
    let mut t = token();
    t.mint("owner", s("a"), 10).unwrap();
    assert_eq!(t.burn("mallory", "a", 1), Err("only owner"));
    assert_eq!(t.burn("owner", "ghost", 1), Err("no balance"));
    assert_eq!(t.burn("owner", "a", 11), Err("insufficient"));
    assert_eq!(t.burn("owner", "a", 10), Ok(()));
    assert_eq!(t.total_supply, 0);
}

#[test]
fn token_transfer_neutrality() {
    let mut t = token();
    t.mint("owner", s("a"), 60).unwrap();
    t.mint("owner", s("b"), 40).unwrap();
    t.distribute(100);
    let supply_before = t.total_supply;
    t.transfer("a", s("b"), 25).unwrap();
    assert_eq!(t.total_supply, supply_before);
    // Each party keeps exactly what it had accrued up to the transfer point.
    assert_eq!(t.claim("a"), Ok(60));
    assert_eq!(t.claim("b"), Ok(40));
}

#[test]
fn token_transfer_errors() {
    let mut t = token();
    assert_eq!(t.transfer("ghost", s("b"), 1), Err("no balance"));
    t.mint("owner", s("a"), 5).unwrap();
    assert_eq!(t.transfer("a", s("b"), 6), Err("insufficient"));
    assert_eq!(t.transfer("a", s("b"), 5), Ok(()));
}

#[test]
fn token_late_holder_gains_nothing_retroactively() {
    let mut t = token();
    t.mint("owner", s("a"), 100).unwrap();
    t.distribute(10);
    t.mint("owner", s("b"), 100).unwrap();
    assert_eq!(t.claim("b"), Ok(0));
    assert_eq!(t.claim("a"), Ok(10));
}

#[test]
fn token_claim_idempotent() {
    let mut t = token();
    t.mint("owner", s("a"), 10).unwrap();
    t.distribute(7);
    assert_eq!(t.claim("a"), Ok(7));
    assert_eq!(t.claim("a"), Ok(0));
    assert_eq!(t.claim("ghost"), Err("no balance"));
}

#[test]
fn royalty_splitter_distributes_by_weight() {
    let mut r = RoyaltySplitter::new();
    r.set_payee(s("a"), 3);
    r.set_payee(s("b"), 1);
    assert_eq!(r.total_share, 4);
    r.distribute(100);
    assert_eq!(r.claim("a"), Ok(75));
    assert_eq!(r.claim("b"), Ok(25));
    assert_eq!(r.claim("a"), Ok(0));
    assert_eq!(r.claim("ghost"), Err("unknown"));
}

#[test]
fn royalty_splitter_weight_zero_removes_only_when_drained() {
    let mut r = RoyaltySplitter::new();
    r.set_payee(s("a"), 5);
    r.set_payee(s("a"), 0);
    assert_eq!(r.total_share, 0);
    assert_eq!(r.claim("a"), Err("unknown"));

    // With value still unclaimed, retirement keeps a drained record.
    let mut r2 = RoyaltySplitter::new();
    r2.set_payee(s("a"), 5);
    r2.distribute(10);
    r2.set_payee(s("a"), 0);
    assert_eq!(r2.total_share, 0);
    assert_eq!(r2.claim("a"), Ok(10));
}

#[test]
fn royalty_splitter_reregistration_preserves_accrual() {
    let mut r = RoyaltySplitter::new();
    r.set_payee(s("a"), 2);
    r.distribute(8);
    r.set_payee(s("a"), 6);
    assert_eq!(r.total_share, 6);
    assert_eq!(r.claim("a"), Ok(8));
}

#[test]
fn royalty_splitter_retains_dust() {
    let mut r = RoyaltySplitter::new();
    r.set_payee(s("a"), 1);
    r.set_payee(s("b"), 1);
    // Each earns floor(5/2) = 2; the leftover unit is retained.
    r.distribute(5);
    assert_eq!(r.undistributed, 1);
    assert_eq!(r.claim("a"), Ok(2));
    assert_eq!(r.claim("b"), Ok(2));

    // With no weight at all, the whole amount is retained.
    let mut r2 = RoyaltySplitter::new();
    r2.distribute(7);
    assert_eq!(r2.undistributed, 7);
}

#[test]
fn revenue_share_distributes_by_basis_points() {
    let mut r = RevenueShare::new();
    r.set_participant(s("a"), 7_000);
    r.set_participant(s("b"), 3_000);
    assert_eq!(r.total_bps, 10_000);
    r.distribute(1_000);
    assert_eq!(r.claim("a"), Ok(700));
    assert_eq!(r.claim("b"), Ok(300));
    assert_eq!(r.claim("ghost"), Err("unknown"));
}

#[test]
fn revenue_share_replacing_preserves_accrual() {
    let mut r = RevenueShare::new();
    r.set_participant(s("a"), 10_000);
    r.distribute(50);
    r.set_participant(s("a"), 5_000);
    assert_eq!(r.total_bps, 5_000);
    assert_eq!(r.claim("a"), Ok(50));
}

#[test]
fn revenue_share_retains_dust() {
    let mut r = RevenueShare::new();
    r.set_participant(s("a"), 3_333);
    r.set_participant(s("b"), 6_667);
    // a earns floor(100*3333/10000) = 33, b floor(100*6667/10000) = 66;
    // the leftover unit is retained.
    r.distribute(100);
    assert_eq!(r.claim("a"), Ok(33));
    assert_eq!(r.claim("b"), Ok(66));
    assert_eq!(r.undistributed, 1);
}
