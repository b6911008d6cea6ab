use prorata_ledger::ai_model_market::AiModelMarket;
use prorata_ledger::bounty_escrow::{BountyEscrow, BountyStatus};
use prorata_ledger::convertible_bond::ConvertibleBond;
use prorata_ledger::credit_default_swap::CreditDefaultSwap;
use prorata_ledger::escrow_payment::EscrowPayment;
use prorata_ledger::futures::Futures;
use prorata_ledger::invoice_factoring::InvoiceFactoring;
use prorata_ledger::options::{OptionType, Options};
use prorata_ledger::parametric_insurance::ParametricInsurance;
use prorata_ledger::reinsurance::Reinsurance;

fn s(text: &str) -> String {
    text.to_string()
}

#[test]
fn model_market_purchase() {
    let mut m = AiModelMarket::new();
    let id = m.list_model(s("seller"), 100, s("uri"));
    assert_eq!(id, 1);
    assert_eq!(m.purchase(2, 100), Err("not found"));
    assert_eq!(m.purchase(1, 99), Err("price"));
    assert_eq!(m.purchase(1, 100), Ok(()));
    assert_eq!(m.purchase(1, 100), Err("sold"));
}

#[test]
fn bounty_escrow_lifecycle() {
    let mut b = BountyEscrow::new();
    let id = b.create_bounty(s("creator"), 500);
    assert_eq!(b.assign_hunter(id, "mallory", s("hunter")), Err("unauthorised"));
    assert_eq!(b.assign_hunter(id, "creator", s("hunter")), Ok(()));
    assert_eq!(b.assign_hunter(id, "creator", s("other")), Err("not open"));
    assert_eq!(b.submit_proof(id, "other", s("p")), Err("unauthorised"));
    assert_eq!(b.release(id, "creator"), Err("not submitted"));
    assert_eq!(b.submit_proof(id, "hunter", s("p")), Ok(()));
    assert_eq!(b.release(id, "creator"), Ok(500));
    assert_eq!(b.refund(id, "creator"), Err("already released"));
    assert!(BountyStatus::Released == BountyStatus::Released);
}

#[test]
fn bounty_refund_before_release() {
    let mut b = BountyEscrow::new();
    let id = b.create_bounty(s("creator"), 70);
    assert_eq!(b.refund(id, "creator"), Ok(70));
    assert_eq!(b.refund(9, "creator"), Err("not found"));
}

#[test]
fn invoice_factoring_flow() {
    let mut f = InvoiceFactoring::new();
    let id = f.submit_invoice(s("seller"), 1_000, 30);
    assert_eq!(f.purchase(id, s("inv"), 1_001), Err("advance too high"));
    assert_eq!(f.purchase(id, s("inv"), 800), Ok(800));
    assert_eq!(f.purchase(id, s("inv2"), 700), Err("already purchased"));
    assert_eq!(f.release_payment(id), Err("not ready"));
    assert_eq!(f.mark_paid(id), Ok(()));
    assert_eq!(f.release_payment(id), Ok(1_000));
    assert_eq!(f.mark_paid(9), Err("not found"));
}

#[test]
fn reinsurance_respects_limit() {
    let mut r = Reinsurance::new();
    let id = r.create_contract(s("cedent"), s("reins"), 10, 100);
    assert_eq!(r.record_claim(id, 60), Ok(()));
    assert_eq!(r.record_claim(id, 50), Err("limit exceeded"));
    assert_eq!(r.record_claim(id, 40), Ok(()));
    assert_eq!(r.record_claim(9, 1), Err("not found"));
}

#[test]
fn credit_default_swap_flow() {
    let mut c = CreditDefaultSwap::new(s("buyer"), s("seller"), 1_000, 10);
    assert_eq!(c.pay_premium("seller"), Err("only buyer"));
    assert_eq!(c.pay_premium("buyer"), Ok(10));
    assert_eq!(c.confirm_payout("seller"), Err("no default"));
    assert_eq!(c.trigger_default("buyer"), Ok(1_000));
    assert_eq!(c.trigger_default("buyer"), Err("already triggered"));
    assert_eq!(c.pay_premium("buyer"), Err("default triggered"));
    assert_eq!(c.confirm_payout("buyer"), Err("only seller"));
    assert_eq!(c.confirm_payout("seller"), Ok(()));
    assert_eq!(c.confirm_payout("seller"), Err("already confirmed"));
    assert_eq!(c.premiums_paid, 1);
}

#[test]
fn escrow_payment_single_decision() {
    let mut e = EscrowPayment::new(s("payer"), s("payee"), s("arbiter"), 250);
    assert_eq!(e.release("payer"), Err("arbiter"));
    assert_eq!(e.release("arbiter"), Ok(250));
    assert_eq!(e.refund("arbiter"), Err("done"));

    let mut e2 = EscrowPayment::new(s("payer"), s("payee"), s("arbiter"), 250);
    assert_eq!(e2.refund("arbiter"), Ok(0));
    assert_eq!(e2.release("arbiter"), Err("done"));
}

#[test]
fn futures_margin_and_settlement() {
    let mut f = Futures::new();
    let id = f.create_contract(s("buyer"), s("seller"), 10, 100);
    assert_eq!(f.deposit_margin(id, "ghost", 5), Err("unauthorised"));
    assert_eq!(f.deposit_margin(id, "buyer", 5), Ok(()));
    assert_eq!(f.deposit_margin(id, "seller", 7), Ok(()));
    // Buyer profit: (90 - 100) * 10 = -100.
    assert_eq!(f.settle(id, "buyer", 90), Ok(-100));
    assert_eq!(f.settle(id, "buyer", 90), Err("settled"));
    assert_eq!(f.deposit_margin(id, "buyer", 5), Err("settled"));
    assert_eq!(f.settle(9, "buyer", 90), Err("not found"));
}

#[test]
fn futures_settlement_overflow_guard() {
    let mut f = Futures::new();
    let id = f.create_contract(s("buyer"), s("seller"), 10, u128::MAX);
    assert_eq!(f.settle(id, "seller", 1), Err("overflow"));
}

#[test]
fn options_call_and_put() {
    let mut o = Options::new();
    let call = o.list_option(s("writer"), 100, 5, 50, OptionType::Call);
    assert_eq!(o.exercise(call, "buyer", 120, 10), Err("not sold"));
    assert_eq!(o.purchase(call, s("buyer"), 4), Err("insufficient premium"));
    assert_eq!(o.purchase(call, s("buyer"), 5), Ok(()));
    assert_eq!(o.purchase(call, s("other"), 5), Err("sold"));
    assert_eq!(o.exercise(call, "other", 120, 10), Err("forbidden"));
    assert_eq!(o.exercise(call, "buyer", 120, 60), Err("expired"));
    assert_eq!(o.exercise(call, "buyer", 120, 10), Ok(20));
    assert_eq!(o.exercise(call, "buyer", 120, 10), Err("exercised"));

    let put = o.list_option(s("writer"), 100, 5, 50, OptionType::Put);
    o.purchase(put, s("buyer"), 5).unwrap();
    assert_eq!(o.exercise(put, "buyer", 80, 10), Ok(20));
}

#[test]
fn parametric_insurance_trigger_and_claim() {
    let mut ins = ParametricInsurance::new(s("insurer"));
    let id = ins.create_policy(s("holder"), 10, 40, 900);
    assert_eq!(ins.report_measurement(id, 39), Ok(false));
    assert_eq!(ins.claim(id, "holder"), Err("not triggered"));
    assert_eq!(ins.report_measurement(id, 40), Ok(true));
    assert_eq!(ins.report_measurement(id, 41), Err("inactive"));
    assert_eq!(ins.claim(id, "mallory"), Err("forbidden"));
    assert_eq!(ins.claim(id, "holder"), Ok(900));
    assert_eq!(ins.claim(id, "holder"), Err("not triggered"));
}

#[test]
fn convertible_bond_flow() {
    let mut b = ConvertibleBond::new(s("issuer"), 3, 100);
    assert_eq!(b.issue("mallory", s("h"), 10), Err("only issuer"));
    assert_eq!(b.issue("issuer", s("h"), 10), Ok(()));
    assert_eq!(b.accrue_interest("h", 5), Ok(()));
    assert_eq!(b.accrue_interest("ghost", 5), Err("no position"));
    assert_eq!(b.convert("h", 99), Err("not matured"));
    // (10 + 5) * 3 = 45.
    assert_eq!(b.convert("h", 100), Ok(45));
    assert_eq!(b.convert("h", 101), Err("already converted"));
    assert_eq!(b.accrue_interest("h", 5), Err("already converted"));
    assert!(b.balance_of("h").unwrap().converted);
}
