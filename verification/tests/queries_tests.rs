use xlm_ns_sdk::client::XlmNsClient;
use xlm_ns_sdk::constants::{MOCK_REFERENCE_TIMESTAMP, SECONDS_PER_YEAR};
use xlm_ns_sdk::errors::{ContractErrorCode, SdkError};
use xlm_ns_sdk::types::AuctionStatus;

fn client() -> XlmNsClient {
    XlmNsClient::new("u".to_string(), None, None, None, None, None).with_resolver("CRES".to_string())
}

fn invalid(e: SdkError) -> String {
    match e {
        SdkError::InvalidRequest(m) => m,
        other => panic!("unexpected {:?}", other),
    }
}

#[test]
fn owner_portfolio() {
    let v = client().get_owner_portfolio("GOWNER").unwrap();
    assert_eq!(v.len(), 2);
    assert_eq!(v[0].owner, "GOWNER");
    assert_eq!(v[0].registered_at, MOCK_REFERENCE_TIMESTAMP - 86_400);
    assert_eq!(v[1].expires_at, MOCK_REFERENCE_TIMESTAMP + 2 * SECONDS_PER_YEAR);
    assert_eq!(v[1].grace_period_ends_at, MOCK_REFERENCE_TIMESTAMP + 2 * SECONDS_PER_YEAR + 86_400);
    assert_eq!(v[1].resolver.as_deref(), Some("CRES"));
    assert_eq!(invalid(client().get_owner_portfolio("").unwrap_err()), "owner must not be empty");
}

#[test]
fn registrations_by_owner() {
    let v = client().list_registrations_by_owner("G1").unwrap();
    assert_eq!(v[0].name, "alice.xlm");
    assert_eq!(v[1].name, "bob.xlm");
    assert_eq!(v[0].address.as_deref(), Some("G1"));
    assert_eq!(v[0].expires_at, Some(MOCK_REFERENCE_TIMESTAMP + SECONDS_PER_YEAR));
    assert!(client().list_registrations_by_owner("\t").is_err());
}

#[test]
fn reverse_lookups() {
    let r = client().reverse_resolve("GADDR").unwrap();
    assert_eq!(r.address, "GADDR");
    assert_eq!(r.primary_name.as_deref(), Some("primary.xlm"));
    assert_eq!(r.resolver.as_deref(), Some("CRES"));
    assert_eq!(client().reverse_lookup("GADDR").unwrap().as_deref(), Some("primary.xlm"));
    assert_eq!(client().get_primary_name("GADDR").unwrap().as_deref(), Some("primary.xlm"));
    assert_eq!(invalid(client().get_primary_name(" ").unwrap_err()), "address must not be empty");
}

#[test]
fn text_record_queries() {
    let t = client().get_text_record("alice.xlm", "twitter").unwrap();
    assert_eq!(t.value.as_deref(), Some("@alice"));
    assert_eq!(t.key, "twitter");
    let t = client().get_text_record("alice.xlm", "github").unwrap();
    assert_eq!(t.value, None);
    assert_eq!(invalid(client().get_text_record("alice.xlm", "").unwrap_err()), "key must not be empty");
    let all = client().get_text_records("bob.xlm").unwrap();
    assert_eq!(all.get("url").map(|s| s.as_str()), Some("https://bob.xlm"));
}

#[test]
fn nft_queries() {
    let r = client().get_nft_record("42").unwrap();
    assert_eq!(r.token_id, "42");
    assert_eq!(r.owner, "GDRA...NFT_OWNER");
    assert_eq!(r.metadata_uri.as_deref(), Some("ipfs://metadata/42"));
    assert_eq!(client().get_nft("42").unwrap().owner, "GDRA...NFT_OWNER");
    assert_eq!(client().get_nft_owner("42").unwrap(), "GDRA...OWNER");
    assert_eq!(client().get_nft_metadata("42").unwrap().as_deref(), Some("ipfs://42"));
    assert_eq!(invalid(client().get_nft_record("  ").unwrap_err()), "token_id must not be empty");
}

#[test]
fn auctions() {
    let a = client().get_auction("active.xlm").unwrap().unwrap();
    assert_eq!(a.status, AuctionStatus::Active);
    assert_eq!(a.highest_bid, 150);
    assert_eq!(a.highest_bidder.as_deref(), Some("GDRA...BIDDER"));
    let e = client().get_auction("ended.xlm").unwrap().unwrap();
    assert_eq!(e.status, AuctionStatus::Ended);
    assert_eq!(e.ends_at, MOCK_REFERENCE_TIMESTAMP - 3600);
    assert!(client().get_auction("other.xlm").unwrap().is_none());
    let s = client().get_auction_state("active.xlm").unwrap();
    assert_eq!(s.highest_bid, 150i128);
    assert_eq!(s.end_time, MOCK_REFERENCE_TIMESTAMP + 3600);
    match client().get_auction_state("other.xlm") {
        Err(SdkError::ContractError(ContractErrorCode::NameNotFound)) => {}
        other => panic!("unexpected {:?}", other),
    }
    assert_eq!(invalid(client().get_auction_state("").unwrap_err()), "name must not be empty");
}
