use prorata_ledger::carbon_credit::CarbonCredit;
use prorata_ledger::dynamic_payroll::DynamicPayroll;
use prorata_ledger::equity_cliff::EquityCliff;
use prorata_ledger::gov_treasury_budget::GovTreasuryBudget;
use prorata_ledger::governed_mint_burn_token::GovernedMintBurnToken;
use prorata_ledger::nft_minting::NftMinting;
use prorata_ledger::sets::{StrSet, U64Set};
use prorata_ledger::storage_market::StorageMarket;
use prorata_ledger::subscription_manager::SubscriptionManager;
use prorata_ledger::threshold_encryption::ThresholdEncryption;
use prorata_ledger::token_faucet::TokenFaucet;
use prorata_ledger::token_vesting::TokenVesting;
use prorata_ledger::transparent_proxy::TransparentProxy;
use prorata_ledger::upgradeable_token::UpgradeableToken;
use prorata_ledger::uups_proxy::UUPSProxy;
use prorata_ledger::veto_council::VetoCouncil;

fn s(text: &str) -> String {
    text.to_string()
}

#[test]
fn carbon_credit_issue_transfer_retire() {
    let mut c = CarbonCredit::new(s("authority"));
    assert_eq!(c.issue("mallory", s("a"), 10), Err("only authority"));
    assert_eq!(c.issue("authority", s("a"), 10), Ok(()));
    assert_eq!(c.transfer("a", s("b"), 11), Err("insufficient"));
    assert_eq!(c.transfer("a", s("b"), 4), Ok(()));
    assert_eq!(c.balance_of("a"), 6);
    assert_eq!(c.balance_of("b"), 4);
    assert_eq!(c.retire("b", 5), Err("insufficient"));
    assert_eq!(c.retire("b", 4), Ok(()));
    assert_eq!(c.total_issued, 10);
    assert_eq!(c.total_retired, 4);
}

#[test]
fn governed_token_flow() {
    let mut t = GovernedMintBurnToken::new(s("Gov"), s("GOV"), s("dao"));
    assert_eq!(t.mint("dao", s("a"), 100), Ok(()));
    assert_eq!(t.burn("dao", "a", 30), Ok(()));
    assert_eq!(t.total_supply, 70);
    assert_eq!(t.transfer("a", s("b"), 20), Ok(()));
    assert_eq!(t.balance_of("b"), 20);
    assert_eq!(t.update_governance("mallory", s("m")), Err("only governance"));
    assert_eq!(t.update_governance("dao", s("newdao")), Ok(()));
    assert_eq!(t.mint("dao", s("a"), 1), Err("only governance"));
    assert_eq!(t.mint("newdao", s("a"), 1), Ok(()));
}

#[test]
fn upgradeable_token_flow() {
    let mut t = UpgradeableToken::new(s("Up"), s("UP"), s("owner"));
    assert_eq!(t.version, 1);
    assert_eq!(t.changelog.len(), 1);
    assert_eq!(t.mint("owner", s("a"), 10), Ok(()));
    assert_eq!(t.transfer("a", s("b"), 3), Ok(()));
    assert_eq!(t.balance_of("a"), 7);
    assert_eq!(t.upgrade("owner", s("v2 notes")), Ok(()));
    assert_eq!(t.version, 2);
    assert_eq!(t.changelog.len(), 2);
    assert_eq!(t.change_owner("owner", s("new")), Ok(()));
    assert_eq!(t.upgrade("owner", s("x")), Err("only owner"));
}

#[test]
fn treasury_budget_spending() {
    let mut b = GovTreasuryBudget::new(s("authority"));
    assert_eq!(b.allocate("authority", s("roads"), 100), Ok(()));
    assert_eq!(b.allocate("mallory", s("roads"), 1), Err("only authority"));
    assert_eq!(b.spend("roads", 60), Ok(()));
    assert_eq!(b.remaining("roads"), Some(40));
    assert_eq!(b.spend("roads", 41), Err("insufficient allocation"));
    assert_eq!(b.spend("bridges", 1), Err("unknown"));
    assert_eq!(b.allocate("authority", s("roads"), 10), Ok(()));
    assert_eq!(b.remaining("roads"), Some(50));
}

#[test]
fn payroll_accrues_by_the_second() {
    let mut p = DynamicPayroll::new(s("boss"));
    assert_eq!(p.add_employee("boss", s("ann"), 2, 100), Ok(()));
    assert_eq!(p.add_employee("other", s("ann"), 2, 100), Err("only employer"));
    assert_eq!(p.payout("ann", 110), Ok(20));
    assert_eq!(p.payout("ann", 110), Ok(0));
    assert_eq!(p.update_rate("boss", "ann", 5, 120), Ok(()));
    assert_eq!(p.set_active("boss", "ann", false, 130), Ok(()));
    // 10 s at rate 2 already paid; 110..120 at 2 = 20, 120..130 at 5 = 50.
    assert_eq!(p.payout("ann", 200), Ok(70));
    // Inactive: nothing accrues.
    assert_eq!(p.payout("ann", 300), Ok(0));
    assert_eq!(p.payout("ghost", 300), Err("unknown"));
}

#[test]
fn vesting_with_cliff() {
    let mut v = TokenVesting::new();
    v.create_schedule(s("ann"), 1_000, 0, 100, 1_000);
    assert_eq!(v.releasable("ann", 99), Some(0));
    assert_eq!(v.claim("ann", 99), Err("nothing vested"));
    assert_eq!(v.releasable("ann", 500), Some(500));
    assert_eq!(v.claim("ann", 500), Ok(500));
    assert_eq!(v.releasable("ann", 500), Some(0));
    assert_eq!(v.claim("ann", 1_000), Ok(500));
    assert_eq!(v.claim("ghost", 10), Err("nothing vested"));
}

#[test]
fn equity_cliff_release() {
    let mut e = EquityCliff::new();
    e.add_grant(s("bob"), 400, 0, 50, 400);
    assert_eq!(e.releasable_amount("bob", 49), Some(0));
    assert_eq!(e.releasable_amount("bob", 100), Some(100));
    assert_eq!(e.claim("bob", 100), Ok(100));
    assert_eq!(e.claim("bob", 100), Err("nothing vested"));
    assert_eq!(e.releasable_amount("ghost", 100), None);
    assert_eq!(e.claim("bob", 400), Ok(300));
}

#[test]
fn subscriptions_expire_and_renew() {
    let mut m = SubscriptionManager::new(100);
    m.subscribe(s("u"), s("basic"), 0);
    assert!(m.is_active("u", 100));
    assert!(!m.is_active("u", 101));
    assert_eq!(m.renew("u", 150), Ok(()));
    assert!(m.is_active("u", 250));
    assert_eq!(m.renew("u", 200), Ok(()));
    assert!(m.is_active("u", 350));
    assert_eq!(m.cancel("u"), Ok(()));
    assert!(!m.is_active("u", 10));
    assert_eq!(m.cancel("ghost"), Err("no subscription"));
    assert_eq!(m.renew("ghost", 1), Err("no subscription"));
}

#[test]
fn faucet_rate_limits() {
    let mut f = TokenFaucet::new(s("owner"), 5, 60);
    assert_eq!(f.request("ann", 10), Err("wait"));
    assert_eq!(f.request("ann", 60), Ok(5));
    assert_eq!(f.request("ann", 100), Err("wait"));
    assert_eq!(f.request("ann", 120), Ok(5));
}

#[test]
fn nft_minting_counts() {
    let mut n = NftMinting::new(s("Art"), s("ART"));
    assert_eq!(n.mint(s("a")), 1);
    assert_eq!(n.mint(s("a")), 2);
    assert_eq!(n.mint(s("b")), 3);
    assert_eq!(n.token_count, 3);
    assert_eq!(n.owner_of.get(2).map(|o| o.as_str()), Some("a"));
    assert_eq!(n.balance_of.get("a").copied(), Some(2));
    assert_eq!(n.balance_of.get("b").copied(), Some(1));
}

#[test]
fn proxies_upgrade() {
    let mut p = TransparentProxy::new(s("admin"), s("v1"));
    assert_eq!(p.finalize_upgrade("admin"), Err("no upgrade"));
    assert_eq!(p.upgrade_to("mallory", s("v2")), Err("only admin"));
    assert_eq!(p.upgrade_to("admin", s("v2")), Ok(()));
    assert_eq!(p.finalize_upgrade("admin"), Ok(()));
    assert_eq!(p.implementation, "v2");
    assert_eq!(p.version, 2);
    assert_eq!(p.change_admin("admin", s("root")), Ok(()));

    let mut u = UUPSProxy::new(s("v1"), s("up"));
    assert_eq!(u.upgrade("mallory", s("v2")), Err("only upgrader"));
    assert_eq!(u.upgrade("up", s("v2")), Ok(()));
    assert_eq!(u.version, 2);
    assert_eq!(u.transfer_upgrader("up", s("next")), Ok(()));
    assert_eq!(u.upgrade("up", s("v3")), Err("only upgrader"));
}

#[test]
fn threshold_encryption_quorum() {
    let mut t = ThresholdEncryption::new(2);
    t.register_participant(s("a"), 1);
    t.register_participant(s("b"), 1);
    assert_eq!(t.submit_share("ghost"), Err("unknown"));
    assert_eq!(t.submit_share("a"), Ok(()));
    assert_eq!(t.submit_share("a"), Ok(()));
    assert!(!t.can_decrypt());
    assert_eq!(t.submit_share("b"), Ok(()));
    assert!(t.can_decrypt());
    t.reset();
    assert!(!t.can_decrypt());
}

#[test]
fn veto_council_quorum() {
    let mut v = VetoCouncil::new(2);
    v.add_member(s("a"));
    v.add_member(s("b"));
    assert_eq!(v.cast_veto(7, "ghost"), Err("not member"));
    assert_eq!(v.cast_veto(7, "a"), Ok(()));
    assert_eq!(v.cast_veto(7, "a"), Ok(()));
    assert!(!v.is_vetoed(7));
    assert_eq!(v.cast_veto(7, "b"), Ok(()));
    assert!(v.is_vetoed(7));
    assert!(!v.is_vetoed(8));
}

#[test]
fn storage_market_fees() {
    let mut m = StorageMarket::new(s("owner"), 10);
    assert_eq!(m.save(s("k"), s("v"), 9), Err("fee"));
    assert_eq!(m.save(s("k"), s("v"), 10), Ok(()));
    assert_eq!(m.retrieve("k").map(|v| v.as_str()), Some("v"));
    assert_eq!(m.retrieve("missing"), None);
}

#[test]
fn verified_sets_deduplicate() {
    let mut ss = StrSet::new();
    assert!(ss.insert(s("x")));
    assert!(!ss.insert(s("x")));
    assert_eq!(ss.len(), 1);
    ss.remove("x");
    assert!(!ss.contains("x"));

    let mut us = U64Set::new();
    assert!(us.insert(9));
    assert!(!us.insert(9));
    assert!(us.contains(9));
    us.remove(9);
    assert_eq!(us.len(), 0);
}
