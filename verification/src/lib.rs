pub mod arith;
pub mod kv;
pub mod smap;
pub mod idmap;
pub mod sets;
pub mod dividend_distributor;
pub mod strutil;
pub mod revenue_share_token;
pub mod royalty_splitter;
pub mod revenue_share;
pub mod ai_model_market;
pub mod reinsurance;
pub mod invoice_factoring;
pub mod bounty_escrow;
pub mod escrow_payment;
pub mod credit_default_swap;
pub mod transparent_proxy;
pub mod uups_proxy;
pub mod balances;
pub mod carbon_credit;
pub mod governed_mint_burn_token;
pub mod upgradeable_token;
pub mod gov_treasury_budget;
pub mod did_registry;
pub mod document_notary;
pub mod land_registry;
pub mod gdpr_compliant_storage;
pub mod storage_market;
pub mod sanctions_screen;
pub mod regulatory_compliance;
pub mod sustainability_score;
pub mod delegated_representation;
pub mod dynamic_payroll;
pub mod token_vesting;
pub mod equity_cliff;
pub mod subscription_manager;
pub mod token_faucet;
pub mod nft_minting;
pub mod asset_provenance;
pub mod convertible_bond;
pub mod options;
pub mod parametric_insurance;
pub mod futures;
pub mod threshold_encryption;
pub mod veto_council;
pub mod rbac;
pub mod regulatory_reporting;
pub mod nft_bridge;
pub mod dao_governance;
pub mod multisig_wallet;
pub mod storage_sla;
pub mod etf_token;
pub mod hybrid_voting;
pub mod ip_licensing;
pub mod perpetual_swap;
pub mod interest_rate_swap;
pub mod rollup_state_channel;
pub mod quadratic_funding;
pub mod randomness_beacon;
pub mod grant_tracker;
pub mod cross_chain_bridge;
pub mod zk_transaction;
