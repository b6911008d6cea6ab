use prorata_ledger::dao_governance::DaoGovernance;
use prorata_ledger::etf_token::ETFToken;
use prorata_ledger::hybrid_voting::HybridVoting;
use prorata_ledger::interest_rate_swap::InterestRateSwap;
use prorata_ledger::ip_licensing::IPLicensing;
use prorata_ledger::multisig_wallet::MultisigWallet;
use prorata_ledger::nft_bridge::NFTBridge;
use prorata_ledger::perpetual_swap::PerpetualSwap;
use prorata_ledger::quadratic_funding::QuadraticFunding;
use prorata_ledger::randomness_beacon::RandomnessBeacon;
use prorata_ledger::rollup_state_channel::RollupStateChannel;
use prorata_ledger::smap::StrMap;
use prorata_ledger::storage_sla::StorageSLA;

fn s(text: &str) -> String {
    text.to_string()
}

#[test]
fn nft_bridge_lock_and_release() {
    let mut b = NFTBridge::new();
    b.add_relayer(s("relay"));
    let id = b.lock_nft(s("alice"), 42, s("chain-a"), s("chain-b")).unwrap();
    assert!(b.is_locked(42));
    assert_eq!(b.lock_nft(s("bob"), 42, s("x"), s("y")), Err("locked"));
    assert_eq!(b.release("mallory", id, s("alice-b")), Err("forbidden"));
    assert_eq!(b.release("relay", 99, s("alice-b")), Err("not found"));
    assert_eq!(b.release("relay", id, s("alice-b")), Ok(42));
    assert!(!b.is_locked(42));
    assert_eq!(b.release("relay", id, s("x")), Err("completed"));
}

#[test]
fn dao_votes_and_executes() {
    let mut dao = DaoGovernance::new();
    let id = dao.create_proposal(s("fund the park"), 100, 50);
    assert_eq!(dao.vote(id, s("a"), true, 100), Ok(()));
    assert_eq!(dao.vote(id, s("a"), true, 101), Err("voted"));
    assert_eq!(dao.vote(id, s("b"), false, 102), Ok(()));
    assert_eq!(dao.vote(id, s("c"), true, 149), Ok(()));
    assert_eq!(dao.vote(id, s("d"), true, 150), Err("ended"));
    assert_eq!(dao.execute(id, 149), Err("active"));
    assert_eq!(dao.execute(id, 150), Ok(true));
    assert_eq!(dao.execute(id, 151), Err("done"));
    assert_eq!(dao.execute(9, 151), Err("not found"));
}

#[test]
fn multisig_reaches_quorum() {
    let mut w = MultisigWallet::new(vec![s("a"), s("b"), s("c")], 2);
    assert_eq!(w.submit("ghost", s("t"), 1, vec![]), Err("not owner"));
    let id = w.submit("a", s("target"), 10, vec![1, 2]).unwrap();
    assert_eq!(id, 0);
    assert_eq!(w.approve("a", 5), Err("not found"));
    assert_eq!(w.approve("a", id), Ok(()));
    assert_eq!(w.approve("a", id), Ok(()));
    assert!(!w.transactions[0].executed);
    assert_eq!(w.approve("b", id), Ok(()));
    assert!(w.transactions[0].executed);
    assert_eq!(w.approve("c", id), Err("executed"));
}

#[test]
fn storage_sla_penalties() {
    let mut sla = StorageSLA::new(5);
    sla.register_provider(s("p"), 99);
    assert_eq!(sla.record_uptime("q", 1, 100), Err("unknown"));
    assert_eq!(sla.record_uptime("p", 1, 100), Ok(()));
    assert_eq!(sla.record_uptime("p", 2, 98), Ok(()));
    assert_eq!(sla.record_uptime("p", 3, 97), Ok(()));
    assert_eq!(sla.penalties("p"), Some(10));
    assert_eq!(sla.penalties("q"), None);
}

#[test]
fn etf_mint_and_redeem_at_nav() {
    let mut etf = ETFToken::new(s("mgr"));
    assert_eq!(etf.deposit_asset("mgr", s("bond"), 1_000), Ok(()));
    assert_eq!(etf.deposit_asset("other", s("bond"), 1), Err("only manager"));
    assert_eq!(etf.mint_shares("mgr", s("a"), 100, 500), Ok(()));
    // NAV = cash 500 + holdings 1000 = 1500; redeeming 10 of 100 shares
    // pays 150.
    assert_eq!(etf.redeem_shares("a", 10), Ok(150));
    assert_eq!(etf.redeem_shares("a", 1_000), Err("insufficient"));
    assert_eq!(etf.update_asset_value("mgr", s("bond"), 0), Ok(()));
    assert_eq!(etf.total_nav(), 350);
}

#[test]
fn hybrid_voting_weights() {
    let mut hv = HybridVoting::new();
    hv.set_token_balance(s("whale"), 1_000);
    hv.register_identity(s("whale"));
    hv.register_identity(s("citizen"));
    let id = hv.create_proposal(s("prop"), 100);
    assert_eq!(hv.vote("whale", id, true, 50), Ok(()));
    assert_eq!(hv.vote("whale", id, true, 51), Err("already voted"));
    assert_eq!(hv.vote("citizen", id, false, 52), Ok(()));
    assert_eq!(hv.vote("late", id, false, 101), Err("closed"));
    // Yes: 1000 tokens + 1 identity; no: 0 tokens + 1 identity.
    assert_eq!(hv.hybrid_result(id), Some((1_001, 1)));
    assert_eq!(hv.hybrid_result(9), None);
}

#[test]
fn ip_licensing_grant_and_revoke() {
    let mut ip = IPLicensing::new();
    ip.register_asset(s("song"), s("alice"), s("meta"));
    assert_eq!(ip.grant_license("song", "bob", s("l"), s("t")), Err("forbidden"));
    assert_eq!(ip.grant_license("song", "alice", s("radio"), s("t1")), Ok(()));
    assert_eq!(ip.grant_license("song", "alice", s("tv"), s("t2")), Ok(()));
    assert_eq!(ip.active_licenses("song").unwrap().len(), 2);
    assert_eq!(ip.revoke_license("song", "alice", s("radio").as_str()), Ok(()));
    let active = ip.active_licenses("song").unwrap();
    assert_eq!(active.len(), 1);
    assert_eq!(active[0].licensee, "tv");
    assert_eq!(ip.revoke_license("song", "alice", "nobody"), Err("not found"));
    assert_eq!(ip.transfer("song", "alice", s("bob")), Ok(()));
    assert_eq!(ip.grant_license("song", "alice", s("x"), s("y")), Err("forbidden"));
}

#[test]
fn perpetual_swap_funding_and_close() {
    let mut ps = PerpetualSwap::new();
    assert_eq!(ps.open_position(s("t"), 0, 100, 10), Err("invalid size"));
    assert_eq!(ps.open_position(s("t"), 2, 100, 10), Ok(()));
    // Funding: 2 * 50 / 10_000 truncates to 0; 2 * 10_000 / 10_000 = 2.
    ps.apply_funding(10_000);
    // Close at 110: (110 - 100) * 2 - 2 = 18.
    assert_eq!(ps.close_position("t", 110), Ok(18));
    assert_eq!(ps.close_position("t", 110), Err("closed"));
    assert_eq!(ps.close_position("ghost", 110), Err("no position"));
}

#[test]
fn interest_rate_swap_settles() {
    let mut irs = InterestRateSwap::new();
    let id = irs.open_swap(s("fix"), s("float"), 1_000_000, 200, 0, 30);
    assert_eq!(irs.settle(id, 10), Err("too early"));
    assert_eq!(irs.settle(id, 30), Err("missing rate"));
    assert_eq!(irs.record_floating_rate(id, 20, 250), Ok(()));
    // (250 - 200) * 1_000_000 / 10_000 = 5_000.
    assert_eq!(irs.settle(id, 30), Ok(5_000));
    assert_eq!(irs.record_floating_rate(id, 40, 100), Ok(()));
    // (100 - 200) * 1_000_000 / 10_000 = -10_000.
    assert_eq!(irs.settle(id, 60), Ok(-10_000));
    assert_eq!(irs.settle(9, 60), Err("not found"));
}

#[test]
fn rollup_channel_lifecycle() {
    let mut rc = RollupStateChannel::new(10);
    let id = rc.open_channel(s("a"), s("b"), 60, 40);
    let mut newer: StrMap<u128> = StrMap::new();
    newer.insert(s("a"), 30);
    newer.insert(s("b"), 70);
    assert_eq!(rc.update_state(id, "ghost", 1, newer.duplicate()), Err("unauthorised"));
    assert_eq!(rc.update_state(id, "a", 0, newer.duplicate()), Err("stale"));
    let mut partial: StrMap<u128> = StrMap::new();
    partial.insert(s("a"), 100);
    assert_eq!(rc.update_state(id, "a", 1, partial), Err("invalid state"));
    assert_eq!(rc.update_state(id, "a", 1, newer), Ok(()));
    assert!(matches!(rc.finalize(id, 100), Err("not closing")));
    assert_eq!(rc.initiate_close(id, "b", 100), Ok(()));
    assert!(matches!(rc.finalize(id, 105), Err("challenge active")));
    let settled = rc.finalize(id, 110).unwrap();
    assert_eq!(settled.get("a").copied(), Some(30));
    assert_eq!(settled.get("b").copied(), Some(70));
}

#[test]
fn quadratic_funding_matches_square_of_root_sum() {
    let mut qf = QuadraticFunding::new();
    qf.add_matching_funds(1_000);
    qf.add_project(s("p"), s("park"));
    assert_eq!(qf.contribute("q", s("a"), 4), Err("unknown"));
    assert_eq!(qf.contribute("p", s("a"), 4), Ok(()));
    assert_eq!(qf.contribute("p", s("b"), 9), Ok(()));
    assert_eq!(qf.contribute("p", s("c"), 16), Ok(()));
    // Roots 2 + 3 + 4 = 9; potential 81; minus 29 contributed = 52 matched.
    assert_eq!(qf.finalize("p"), Ok(52));
    assert_eq!(qf.matching_pool, 948);
}

#[test]
fn quadratic_match_capped_by_pool() {
    let mut qf = QuadraticFunding::new();
    qf.add_matching_funds(10);
    qf.add_project(s("p"), s("park"));
    qf.contribute("p", s("a"), 100).unwrap();
    qf.contribute("p", s("b"), 100).unwrap();
    // Roots 10 + 10 = 20; potential 400; minus 200 = 200, capped at 10.
    assert_eq!(qf.finalize("p"), Ok(10));
    assert_eq!(qf.matching_pool, 0);
}

#[test]
fn beacon_is_deterministic() {
    let mut b1 = RandomnessBeacon::new(7);
    let mut b2 = RandomnessBeacon::new(7);
    b1.contribute_entropy(99);
    b2.contribute_entropy(99);
    let x1 = b1.next_random();
    let x2 = b2.next_random();
    assert_eq!(x1, x2);
    assert_eq!(b1.round, 1);
    assert_eq!(b1.history.len(), 2);
    let y1 = b1.next_random();
    assert_ne!(x1, y1);
}
