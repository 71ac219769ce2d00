use xlm_ns_sdk::client::XlmNsClient;
use xlm_ns_sdk::constants::{GRACE_PERIOD_SECONDS, MOCK_REFERENCE_TIMESTAMP, SECONDS_PER_YEAR};
use xlm_ns_sdk::errors::SdkError;
use xlm_ns_sdk::lookup::make_text_records;
use xlm_ns_sdk::step::Step;
use xlm_ns_sdk::types::LedgerContext;

fn ctx(ledger: u32) -> LedgerContext {
    LedgerContext { ledger, network_passphrase: "net".to_string() }
}

fn registry_client() -> XlmNsClient {
    XlmNsClient::new("u".to_string(), None, Some("CREG".to_string()), None, None, None)
}

#[test]
fn resolve_walks_through_its_steps() {
    let c = registry_client();
    let mut net: Vec<Result<(), String>> = Vec::new();
    assert!(matches!(c.resolve("alice.xlm", None, &net), Step::FetchLedger));
    assert!(matches!(c.resolve("alice.xlm", Some(ctx(5)), &net), Step::FetchNetwork));
    net.push(Ok(()));
    assert!(matches!(c.resolve("alice.xlm", Some(ctx(5)), &net), Step::FetchNetwork));
    net.push(Ok(()));
    match c.resolve("alice.xlm", Some(ctx(5)), &net) {
        Step::Done(Ok(r)) => {
            assert_eq!(r.name, "alice.xlm");
            assert_eq!(r.address.as_deref(), Some("GDRA...RESOLVED_ADDR:alice.xlm:5"));
            assert_eq!(r.resolver.as_deref(), Some("CDAD...RESOLVER"));
            assert_eq!(r.expires_at, Some(MOCK_REFERENCE_TIMESTAMP + SECONDS_PER_YEAR));
        }
        other => panic!("unexpected {:?}", other),
    }
    // outcomes beyond the two it needs change nothing
    net.push(Err("late".to_string()));
    match c.resolve("alice.xlm", Some(ctx(5)), &net) {
        Step::Done(Ok(r)) => assert_eq!(r.address.as_deref(), Some("GDRA...RESOLVED_ADDR:alice.xlm:5")),
        other => panic!("unexpected {:?}", other),
    }
}

#[test]
fn resolve_uses_configured_resolver() {
    let c = registry_client().with_resolver("CMYRES".to_string());
    let net = vec![Ok(()), Ok(())];
    match c.resolve("x", Some(ctx(1)), &net) {
        Step::Done(Ok(r)) => assert_eq!(r.resolver.as_deref(), Some("CMYRES")),
        other => panic!("unexpected {:?}", other),
    }
}

#[test]
fn resolve_reports_failures() {
    let c = registry_client();
    let net = vec![Err("boom".to_string())];
    match c.resolve("x", Some(ctx(1)), &net) {
        Step::Done(Err(SdkError::Transport(m))) => assert_eq!(m, "failed to get network: boom"),
        other => panic!("unexpected {:?}", other),
    }
    let net = vec![Ok(()), Err("second".to_string())];
    match c.resolve("x", Some(ctx(1)), &net) {
        Step::Done(Err(SdkError::Transport(m))) => assert_eq!(m, "failed to get network: second"),
        other => panic!("unexpected {:?}", other),
    }
    let bare = XlmNsClient::new("u".to_string(), None, None, None, None, None);
    match bare.resolve("x", Some(ctx(1)), &Vec::new()) {
        Step::Done(Err(SdkError::InvalidRequest(m))) => assert_eq!(m, "registry contract ID not configured"),
        other => panic!("unexpected {:?}", other),
    }
}

#[test]
fn registry_entry_values() {
    let c = registry_client();
    let e = c.registry_entry("bob.xlm", 10);
    assert_eq!(e.name, "bob.xlm");
    assert_eq!(e.owner, "GDRA...OWNER");
    assert_eq!(e.target_address.as_deref(), Some("GDRA...TARGET"));
    assert_eq!(e.metadata_uri, None);
    assert_eq!(e.ttl_seconds, 3600);
    assert_eq!(e.registered_at, MOCK_REFERENCE_TIMESTAMP + 10);
    assert_eq!(e.grace_period_ends_at, MOCK_REFERENCE_TIMESTAMP + SECONDS_PER_YEAR + GRACE_PERIOD_SECONDS);
    assert_eq!(e.transfer_count, 0);
}

#[test]
fn query_registry_outcomes() {
    let c = registry_client();
    assert!(c.query_registry("a", 1, &Ok(())).is_ok());
    match c.query_registry("a", 1, &Err("down".to_string())) {
        Err(SdkError::Transport(m)) => assert_eq!(m, "failed to get network: down"),
        other => panic!("unexpected {:?}", other),
    }
    let r = c.query_resolver("a", 9, &Ok(())).unwrap().unwrap();
    assert_eq!(r.address, "GDRA...RESOLVED_ADDR:a:9");
    assert_eq!(r.owner, "GDRA...OWNER");
    assert_eq!(r.updated_at, MOCK_REFERENCE_TIMESTAMP);
}

#[test]
fn metadata_from_entry() {
    let c = registry_client();
    match c.get_registry_metadata("n", Some(ctx(3)), &vec![Ok(())]) {
        Step::Done(Ok(r)) => {
            assert_eq!(r.owner, "GDRA...OWNER");
            assert_eq!(r.registered_at, MOCK_REFERENCE_TIMESTAMP + 3);
            assert_eq!(r.expires_at, MOCK_REFERENCE_TIMESTAMP + SECONDS_PER_YEAR);
            assert_eq!(r.resolver.as_deref(), Some("CDAD...RESOLVER"));
        }
        other => panic!("unexpected {:?}", other),
    }
    assert!(matches!(c.get_registry_metadata("n", None, &Vec::new()), Step::FetchLedger));
}

#[test]
fn registration_of_notfound_is_none() {
    let c = registry_client();
    assert!(matches!(c.get_registration("notfound.xlm", None, &Vec::new()), Step::Done(Ok(None))));
    assert!(matches!(c.get_registration("alice.xlm", None, &Vec::new()), Step::FetchLedger));
    match c.get_registration("alice.xlm", Some(ctx(2)), &vec![Ok(()), Ok(())]) {
        Step::Done(Ok(Some(r))) => assert_eq!(r.name, "alice.xlm"),
        other => panic!("unexpected {:?}", other),
    }
}

#[test]
fn text_records_of_name() {
    let r = make_text_records("alice.xlm");
    assert_eq!(r.get("url").map(|s| s.as_str()), Some("https://alice.xlm"));
    assert_eq!(r.get("twitter").map(|s| s.as_str()), Some("@alice"));
    assert_eq!(r.get("email"), None);
    let r = make_text_records("nodots");
    assert_eq!(r.get("twitter").map(|s| s.as_str()), Some("@nodots"));
    let r = make_text_records(".lead");
    assert_eq!(r.get("twitter").map(|s| s.as_str()), Some("@"));
}
