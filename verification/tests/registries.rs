use prorata_ledger::asset_provenance::AssetProvenance;
use prorata_ledger::delegated_representation::DelegatedRepresentation;
use prorata_ledger::did_registry::DIDRegistry;
use prorata_ledger::document_notary::DocumentNotary;
use prorata_ledger::gdpr_compliant_storage::GDPRCompliantStorage;
use prorata_ledger::land_registry::LandRegistry;
use prorata_ledger::rbac::RBAC;
use prorata_ledger::regulatory_compliance::RegulatoryCompliance;
use prorata_ledger::regulatory_reporting::RegulatoryReporting;
use prorata_ledger::sanctions_screen::SanctionsScreen;
use prorata_ledger::sustainability_score::SustainabilityScore;

fn s(text: &str) -> String {
    text.to_string()
}

#[test]
fn did_registry_lifecycle() {
    let mut reg = DIDRegistry::new();
    assert_eq!(reg.register(s("did:a"), s("alice"), s("meta")), Ok(()));
    assert_eq!(reg.register(s("did:a"), s("bob"), s("meta")), Err("exists"));
    assert_eq!(reg.update_metadata("did:a", "bob", s("x")), Err("forbidden"));
    assert_eq!(reg.update_metadata("did:a", "alice", s("x")), Ok(()));
    assert_eq!(reg.transfer_control("did:a", "alice", s("bob")), Ok(()));
    assert_eq!(reg.revoke("did:a", "alice"), Err("forbidden"));
    assert_eq!(reg.revoke("did:a", "bob"), Ok(()));
    assert_eq!(reg.update_metadata("did:a", "bob", s("y")), Err("revoked"));
    assert_eq!(reg.update_metadata("did:b", "bob", s("y")), Err("missing"));
    assert!(reg.get("did:a").unwrap().revoked);
}

#[test]
fn document_notary_verifies_hashes() {
    let mut n = DocumentNotary::new();
    assert_eq!(n.notarize(s("doc"), s("alice"), s("hash1"), 7), Ok(()));
    assert_eq!(
        n.notarize(s("doc"), s("bob"), s("hash2"), 8),
        Err("already notarized")
    );
    assert!(n.verify("doc", "hash1"));
    assert!(!n.verify("doc", "hash2"));
    assert!(!n.verify("other", "hash1"));
    assert_eq!(n.owner_of("doc").map(|o| o.as_str()), Some("alice"));
    assert_eq!(n.owner_of("other"), None);
}

#[test]
fn land_registry_transfer_and_encumbrances() {
    let mut reg = LandRegistry::new();
    assert_eq!(reg.register_parcel(s("p1"), s("alice"), s("field")), Ok(()));
    assert_eq!(reg.register_parcel(s("p1"), s("bob"), s("x")), Err("exists"));
    assert_eq!(reg.transfer("p1", "bob", s("carol")), Err("forbidden"));
    assert_eq!(reg.add_encumbrance("p1", s("mortgage")), Ok(()));
    assert_eq!(reg.transfer("p1", "alice", s("bob")), Ok(()));
    let rec = reg.info("p1").unwrap();
    assert_eq!(rec.owner, "bob");
    assert_eq!(rec.encumbrances.len(), 1);
    assert_eq!(reg.transfer("p2", "bob", s("x")), Err("unknown"));
}

#[test]
fn gdpr_storage_consent_and_erasure() {
    let mut st = GDPRCompliantStorage::new();
    st.store(s("k"), s("alice"), s("v"), true, 1);
    assert!(st.read("k").is_some());
    assert_eq!(st.update_value("k", "bob", s("w"), true, 2), Err("forbidden"));
    assert_eq!(st.update_value("k", "alice", s("w"), true, 2), Ok(()));
    assert_eq!(st.revoke_consent("k", "alice"), Ok(()));
    assert!(st.read("k").is_none());
    assert_eq!(st.erase("k", "alice"), Ok(()));
    assert_eq!(st.update_value("k", "alice", s("z"), true, 3), Err("forbidden"));
    assert_eq!(st.erase("missing", "alice"), Err("missing"));
}

#[test]
fn sanctions_and_compliance_screens() {
    let mut sc = SanctionsScreen::new();
    sc.add(s("evil"));
    sc.add(s("evil"));
    assert!(sc.is_listed("evil"));
    sc.remove("evil");
    assert!(!sc.is_listed("evil"));

    let mut rc = RegulatoryCompliance::new(s("sec"));
    assert_eq!(rc.set_approval("mallory", s("a"), true), Err("only regulator"));
    assert_eq!(rc.set_approval("sec", s("a"), true), Ok(()));
    assert!(rc.is_approved("a"));
    assert_eq!(rc.set_approval("sec", s("a"), false), Ok(()));
    assert!(!rc.is_approved("a"));
}

#[test]
fn sustainability_score_formula() {
    let mut sus = SustainabilityScore::new();
    // (100 - 20) * 4 + 50 * 4 + 80 * 2 = 680; 680 / 10 = 68.
    sus.update_metrics(s("acme"), 20, 50, 80);
    assert_eq!(sus.score("acme"), Some(68));
    // Perfect metrics cap at 100: 400 + 400 + 200 = 1000; 100 capped.
    sus.update_metrics(s("green"), 0, 100, 100);
    assert_eq!(sus.score("green"), Some(100));
    assert_eq!(sus.score("ghost"), None);
}

#[test]
fn delegation_register() {
    let mut del = DelegatedRepresentation::new();
    del.delegate(s("a"), s("rep1"));
    del.delegate(s("b"), s("rep1"));
    del.delegate(s("c"), s("rep2"));
    del.delegate(s("b"), s("rep2"));
    assert_eq!(del.representative_of("a").map(|r| r.as_str()), Some("rep1"));
    assert_eq!(del.delegators_for("rep1"), vec![s("a")]);
    assert_eq!(del.delegators_for("rep2"), vec![s("b"), s("c")]);
    del.revoke("a");
    assert_eq!(del.representative_of("a"), None);
    assert_eq!(del.delegators_for("rep1"), Vec::<String>::new());
}

#[test]
fn rbac_roles() {
    let mut rbac = RBAC::new(s("admin"));
    rbac.grant_role(s("minter"), s("alice"));
    rbac.grant_role(s("minter"), s("bob"));
    rbac.grant_role(s("minter"), s("alice"));
    assert!(rbac.has_role("minter", "alice"));
    assert!(!rbac.has_role("minter", "carol"));
    assert_eq!(rbac.list_members("minter"), vec![s("alice"), s("bob")]);
    rbac.revoke_role("minter", "alice");
    assert!(!rbac.has_role("minter", "alice"));
    assert_eq!(rbac.list_members("ghost"), Vec::<String>::new());
}

#[test]
fn provenance_history() {
    let mut prov = AssetProvenance::new();
    assert_eq!(prov.register_asset(s("art"), 1, s("alice"), None), Ok(()));
    assert_eq!(
        prov.register_asset(s("art"), 2, s("bob"), None),
        Err("asset exists")
    );
    assert_eq!(
        prov.add_event("art", s("sold"), s("alice"), 3, Some(s("receipt"))),
        Ok(())
    );
    assert_eq!(
        prov.add_event("ghost", s("sold"), s("x"), 4, None),
        Err("missing asset")
    );
    let history = prov.history("art").unwrap();
    assert_eq!(history.len(), 2);
    assert_eq!(history[0].action, "registered");
    assert_eq!(history[1].action, "sold");
}

#[test]
fn regulatory_reporting_queries() {
    let mut log = RegulatoryReporting::new();
    log.submit(s("alice"), s("aml"), s("r1"), 1);
    log.submit(s("bob"), s("kyc"), s("r2"), 2);
    log.submit(s("alice"), s("kyc"), s("r3"), 3);
    let by_alice = log.reports_by("alice");
    assert_eq!(by_alice.len(), 2);
    assert_eq!(by_alice[1].payload, "r3");
    assert_eq!(log.latest("kyc").unwrap().payload, "r3");
    assert_eq!(log.latest("aml").unwrap().payload, "r1");
    assert!(log.latest("none").is_none());
}
