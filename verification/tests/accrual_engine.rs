use prorata_ledger::dividend_distributor::{DividendDistributor, PRECISION};

fn s(text: &str) -> String {
    text.to_string()
}

#[test]
fn rounding_dust_three_equal_shareholders() {
    // PRECISION = 1_000_000_000_000, total stake 3, deposit 10:
    // per-share increment floor(10e12 / 3) = 3_333_333_333_333,
    // distributed = floor(3_333_333_333_333 * 3 / 1e12) = 9, dust 1,
    // and each shareholder is owed floor(3_333_333_333_333 / 1e12) = 3.
    assert_eq!(PRECISION, 1_000_000_000_000u128);
    let mut d = DividendDistributor::new();
    d.set_shares(s("a"), 1);
    d.set_shares(s("b"), 1);
    d.set_shares(s("c"), 1);
    assert_eq!(d.total_shares, 3);
    d.deposit_dividends(10);
    assert_eq!(d.undistributed, 1);
    assert_eq!(d.claim("a"), Ok(3));
    assert_eq!(d.claim("b"), Ok(3));
    assert_eq!(d.claim("c"), Ok(3));
}

#[test]
fn zero_stake_distribution_defers_everything() {
    let mut d = DividendDistributor::new();
    d.set_shares(s("a"), 0);
    d.deposit_dividends(100);
    assert_eq!(d.undistributed, 100);
    assert_eq!(d.info("a"), Some((0, 0)));
    assert_eq!(d.claim("a"), Ok(0));
}

#[test]
fn claim_is_idempotent_without_new_distribution() {
    let mut d = DividendDistributor::new();
    d.set_shares(s("a"), 5);
    d.deposit_dividends(50);
    let first = d.claim("a").unwrap();
    assert_eq!(first, 50);
    assert_eq!(d.claim("a"), Ok(0));
}

#[test]
fn no_retroactive_gain_for_late_joiner() {
    let mut d = DividendDistributor::new();
    d.set_shares(s("early"), 10);
    d.deposit_dividends(1_000);
    // A huge stake acquired after the distribution earns nothing from it.
    d.set_shares(s("late"), 1_000_000);
    assert_eq!(d.claim("late"), Ok(0));
    assert_eq!(d.claim("early"), Ok(1_000));
}

#[test]
fn deposit_conserves_amount_exactly() {
    let mut d = DividendDistributor::new();
    d.set_shares(s("a"), 7);
    d.deposit_dividends(100);
    // per-share = floor(100e12 / 7); distributed = floor(per * 7 / 1e12) = 99.
    // The missing unit sits in undistributed: nothing was destroyed.
    let claimed = d.claim("a").unwrap();
    assert_eq!(claimed + d.undistributed, 100);
}

#[test]
fn unknown_shareholder_cannot_claim() {
    let mut d = DividendDistributor::new();
    assert_eq!(d.claim("ghost"), Err("unknown shareholder"));
}

#[test]
fn tiny_deposit_is_deferred_not_lost() {
    let mut d = DividendDistributor::new();
    // With an enormous stake, a deposit of 1 yields a zero per-share
    // increment and is deferred whole.
    d.set_shares(s("whale"), u128::MAX / PRECISION + 1);
    d.deposit_dividends(1);
    assert_eq!(d.undistributed, 1);
    assert_eq!(d.claim("whale"), Ok(0));
}

#[test]
fn recycle_undistributed_reaches_accounts_once_stake_exists() {
    let mut d = DividendDistributor::new();
    d.deposit_dividends(90);
    assert_eq!(d.undistributed, 90);
    d.set_shares(s("a"), 3);
    d.recycle_undistributed();
    assert_eq!(d.undistributed, 0);
    assert_eq!(d.claim("a"), Ok(90));
}

#[test]
fn stake_change_settles_at_old_stake_first() {
    let mut d = DividendDistributor::new();
    d.set_shares(s("a"), 2);
    d.set_shares(s("b"), 2);
    d.deposit_dividends(40);
    // Raising a's stake afterwards must not change what the first
    // distribution owed at the old stake.
    d.set_shares(s("a"), 100);
    assert_eq!(d.claim("a"), Ok(20));
    assert_eq!(d.claim("b"), Ok(20));
    assert_eq!(d.total_shares, 102);
}

#[test]
fn preview_matches_subsequent_claim() {
    let mut d = DividendDistributor::new();
    assert_eq!(d.preview_pending("a"), None);
    d.set_shares(s("a"), 3);
    d.deposit_dividends(30);
    assert_eq!(d.preview_pending("a"), Some(30));
    // The preview persists nothing: it can be read twice and still matches
    // the claim that follows.
    assert_eq!(d.preview_pending("a"), Some(30));
    assert_eq!(d.claim("a"), Ok(30));
    assert_eq!(d.preview_pending("a"), Some(0));
}

#[test]
fn info_reports_shares_and_accrued() {
    let mut d = DividendDistributor::new();
    assert_eq!(d.info("a"), None);
    d.set_shares(s("a"), 4);
    d.deposit_dividends(8);
    assert_eq!(d.info("a"), Some((4, 0)));
    assert_eq!(d.claim("a"), Ok(8));
    assert_eq!(d.info("a"), Some((4, 0)));
}
