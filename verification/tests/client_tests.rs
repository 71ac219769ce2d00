use xlm_ns_sdk::client::{submission_hash, XlmNsClient};
use xlm_ns_sdk::constants::{GRACE_PERIOD_SECONDS, MOCK_REFERENCE_TIMESTAMP, YEAR_SECONDS};
use xlm_ns_sdk::errors::SdkError;
use xlm_ns_sdk::step::Step;
use xlm_ns_sdk::types::{ClientConfig, LedgerContext, RegistrationRequest, RenewalRequest, SubmissionStatus};

fn invalid(e: &SdkError) -> String {
    match e {
        SdkError::InvalidRequest(m) => m.clone(),
        other => panic!("unexpected error {:?}", other),
    }
}

fn ctx() -> LedgerContext {
    LedgerContext { ledger: 42, network_passphrase: "Test SDF Network".to_string() }
}

fn full_client() -> XlmNsClient {
    XlmNsClient::builder("https://rpc.example".to_string())
        .network_passphrase("Own Passphrase".to_string())
        .registry("CREG".to_string())
        .registrar("CRAR".to_string())
        .resolver("CRES".to_string())
        .auction("CAUC".to_string())
        .bridge("CBRI".to_string())
        .subdomain("CSUB".to_string())
        .nft("CNFT".to_string())
        .build()
}

#[test]
fn new_sets_given_contracts_only() {
    let c = XlmNsClient::new(
        "https://rpc".to_string(),
        Some("pass".to_string()),
        Some("reg".to_string()),
        Some("sub".to_string()),
        None,
        Some("auc".to_string()),
    );
    assert_eq!(c.rpc_url, "https://rpc");
    assert_eq!(c.network_passphrase.as_deref(), Some("pass"));
    assert_eq!(c.registry_contract_id.as_deref(), Some("reg"));
    assert_eq!(c.subdomain_contract_id.as_deref(), Some("sub"));
    assert_eq!(c.bridge_contract_id, None);
    assert_eq!(c.auction_contract_id.as_deref(), Some("auc"));
    assert_eq!(c.registrar_contract_id, None);
    assert_eq!(c.resolver_contract_id, None);
    assert_eq!(c.nft_contract_id, None);
    assert_eq!(c.config, ClientConfig::default());
}

#[test]
fn with_setters_change_one_field() {
    let c = XlmNsClient::new("u".to_string(), None, None, None, None, None)
        .with_registrar("R".to_string())
        .with_resolver("S".to_string())
        .with_auction("A".to_string())
        .with_nft("N".to_string())
        .with_config(ClientConfig {});
    assert_eq!(c.registrar_contract_id.as_deref(), Some("R"));
    assert_eq!(c.resolver_contract_id.as_deref(), Some("S"));
    assert_eq!(c.auction_contract_id.as_deref(), Some("A"));
    assert_eq!(c.nft_contract_id.as_deref(), Some("N"));
    assert_eq!(c.registry_contract_id, None);
}

#[test]
fn builder_matches_new() {
    let built = XlmNsClient::builder("u".to_string())
        .network_passphrase("p".to_string())
        .registry("r".to_string())
        .subdomain("s".to_string())
        .bridge("b".to_string())
        .auction("a".to_string())
        .build();
    let made = XlmNsClient::new(
        "u".to_string(),
        Some("p".to_string()),
        Some("r".to_string()),
        Some("s".to_string()),
        Some("b".to_string()),
        Some("a".to_string()),
    );
    assert_eq!(format!("{:?}", built), format!("{:?}", made));
}

#[test]
fn require_label_refuses_blank() {
    assert!(XlmNsClient::require_label("alice", "label").is_ok());
    assert!(XlmNsClient::require_label("  alice ", "label").is_ok());
    let e = XlmNsClient::require_label(" \t\n\u{3000}", "owner").unwrap_err();
    assert_eq!(invalid(&e), "owner must not be empty");
    let e = XlmNsClient::require_label("", "name").unwrap_err();
    assert_eq!(invalid(&e), "name must not be empty");
}

#[test]
fn hash_joins_parts_with_colons() {
    assert_eq!(submission_hash("register", Some("CRAR"), "CRAR", 42), "register:CRAR:CRAR:42");
    assert_eq!(submission_hash("renew", None, "x", 0), "renew:unconfigured:x:0");
    assert_eq!(submission_hash("op", None, "s", 4294967295), "op:unconfigured:s:4294967295");
}

#[test]
fn submission_at_is_exact() {
    let c = XlmNsClient::new("u".to_string(), None, None, None, None, None);
    let s = c.make_submission_at("mint", Some("C1".to_string()), 7, Some("G1".to_string()),
        Some("net".to_string()), 99);
    assert_eq!(s.tx_hash, "mint:C1:C1:7");
    assert_eq!(s.status, SubmissionStatus::Submitted);
    assert_eq!(s.ledger, Some(7));
    assert_eq!(s.submitted_at, 99);
    assert_eq!(s.contract_id.as_deref(), Some("C1"));
    assert_eq!(s.network_passphrase.as_deref(), Some("net"));
    assert_eq!(s.signer.as_deref(), Some("G1"));
    let own = full_client();
    let s = own.make_submission_at("mint", None, 7, None, Some("net".to_string()), 1);
    assert_eq!(s.network_passphrase.as_deref(), Some("Own Passphrase"));
    assert_eq!(s.tx_hash, "mint:unconfigured:unconfigured:7");
}

#[test]
fn submission_now_is_stamped() {
    let c = full_client();
    let s = c.make_submission("transfer", None, 3, None, None);
    assert!(s.submitted_at > 1_600_000_000);
    assert_eq!(s.tx_hash, "transfer:unconfigured:unconfigured:3");
}

#[test]
fn quote_prices_by_trimmed_length() {
    let c = full_client();
    let q = c.quote_registration_at("abc", 2, 1000).unwrap();
    assert_eq!(q.fee_breakdown.base_fee, 2_000_000_000);
    assert_eq!(q.fee_breakdown.premium_fee, 0);
    assert_eq!(q.fee_breakdown.network_fee, 0);
    assert_eq!(q.total_fee, 2_000_000_000);
    assert_eq!(q.fee_currency, "XLM");
    assert_eq!(q.expires_at, 1000 + 2 * YEAR_SECONDS);
    assert_eq!(q.grace_period_ends_at, 1000 + 2 * YEAR_SECONDS + GRACE_PERIOD_SECONDS);
    assert_eq!(q.quoted_at, 1000);
    assert_eq!(q.contract_id.as_deref(), Some("CRAR"));
    assert_eq!(q.label, "abc");
    let padded = c.quote_registration_at("   abc  ", 2, 1000).unwrap();
    assert_eq!(padded.total_fee, q.total_fee);
    assert_eq!(c.quote_registration_at("alice", 1, 0).unwrap().total_fee, 250_000_000);
    assert_eq!(c.quote_registration_at("alicebob", 1, 0).unwrap().total_fee, 100_000_000);
    // multi-byte characters count by their UTF-8 length
    assert_eq!(c.quote_registration_at("éé", 1, 0).unwrap().total_fee, 250_000_000);
}

#[test]
fn quote_saturates() {
    let c = full_client();
    let q = c.quote_registration_at("ab", u32::MAX, u64::MAX - 5).unwrap();
    assert_eq!(q.expires_at, u64::MAX);
    assert_eq!(q.grace_period_ends_at, u64::MAX);
    assert_eq!(q.total_fee, 1_000_000_000u64 * u32::MAX as u64);
}

#[test]
fn quote_errors_in_order() {
    let c = full_client();
    assert_eq!(invalid(&c.quote_registration_at(" ", 0, 0).unwrap_err()), "label must not be empty");
    assert_eq!(invalid(&c.quote_registration_at("a", 0, 0).unwrap_err()),
        "duration_years must be greater than zero");
    let bare = XlmNsClient::new("u".to_string(), None, None, None, None, None);
    assert_eq!(invalid(&bare.quote_registration_at("a", 1, 0).unwrap_err()),
        "registrar contract ID not configured");
}

#[test]
fn quote_now_uses_clock() {
    let c = full_client();
    let q = c.quote_registration("alice", 1).unwrap();
    assert!(q.quoted_at > 1_600_000_000);
    assert_eq!(q.expires_at, q.quoted_at + YEAR_SECONDS);
}

fn reg_request(label: &str, owner: &str, years: u32) -> RegistrationRequest {
    RegistrationRequest {
        label: label.to_string(),
        owner: owner.to_string(),
        duration_years: years,
        signer: Some("GSIGNER".to_string()),
    }
}

#[test]
fn register_asks_for_ledger_then_submits() {
    let c = full_client();
    assert!(matches!(c.register(reg_request("alice", "GOWNER", 1), None), Step::FetchLedger));
    match c.register(reg_request("alice", "GOWNER", 1), Some(ctx())) {
        Step::Done(Ok(r)) => {
            assert_eq!(r.name, "alice.xlm");
            assert_eq!(r.owner, "GOWNER");
            assert_eq!(r.duration_years, 1);
            assert_eq!(r.fee_paid, 250_000_000);
            assert!(r.expires_at >= YEAR_SECONDS);
            assert_eq!(r.submission.tx_hash, "register:CRAR:CRAR:42");
            assert_eq!(r.submission.signer.as_deref(), Some("GSIGNER"));
            assert_eq!(r.submission.network_passphrase.as_deref(), Some("Own Passphrase"));
        }
        other => panic!("unexpected {:?}", other),
    }
}

#[test]
fn register_refusals() {
    let c = full_client();
    match c.register(reg_request("", "GOWNER", 1), Some(ctx())) {
        Step::Done(Err(e)) => assert_eq!(invalid(&e), "label must not be empty"),
        other => panic!("unexpected {:?}", other),
    }
    match c.register(reg_request("a", " ", 1), None) {
        Step::Done(Err(e)) => assert_eq!(invalid(&e), "owner must not be empty"),
        other => panic!("unexpected {:?}", other),
    }
    match c.register(reg_request("a", "o", 0), None) {
        Step::Done(Err(e)) => assert_eq!(invalid(&e), "duration_years must be greater than zero"),
        other => panic!("unexpected {:?}", other),
    }
    let bare = XlmNsClient::new("u".to_string(), None, None, None, None, None);
    match bare.register(reg_request("a", "o", 1), None) {
        Step::Done(Err(e)) => assert_eq!(invalid(&e), "registrar contract ID not configured"),
        other => panic!("unexpected {:?}", other),
    }
}

#[test]
fn renew_fee_and_expiry() {
    let c = XlmNsClient::new("u".to_string(), None, None, None, None, None).with_registrar("CR".to_string());
    let req = RenewalRequest { name: "alice.xlm".to_string(), additional_years: 3, signer: None };
    assert!(matches!(c.renew(req.clone(), None), Step::FetchLedger));
    match c.renew(req, Some(ctx())) {
        Step::Done(Ok(r)) => {
            assert_eq!(r.fee_paid, 31);
            assert_eq!(r.new_expiry, MOCK_REFERENCE_TIMESTAMP + 3 * 31_536_000);
            assert_eq!(r.additional_years, 3);
            assert_eq!(r.name, "alice.xlm");
            assert_eq!(r.submission.tx_hash, "renew:CR:CR:42");
            assert_eq!(r.submission.network_passphrase.as_deref(), Some("Test SDF Network"));
        }
        other => panic!("unexpected {:?}", other),
    }
    let zero = RenewalRequest { name: "a".to_string(), additional_years: 0, signer: None };
    match c.renew(zero, None) {
        Step::Done(Err(e)) => assert_eq!(invalid(&e), "additional_years must be greater than zero"),
        other => panic!("unexpected {:?}", other),
    }
    let max = RenewalRequest { name: "a".to_string(), additional_years: u32::MAX, signer: None };
    match c.renew(max, Some(ctx())) {
        Step::Done(Ok(r)) => assert_eq!(r.fee_paid, 10 * u32::MAX as u64 + 1),
        other => panic!("unexpected {:?}", other),
    }
}
