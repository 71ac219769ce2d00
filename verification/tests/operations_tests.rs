use xlm_ns_sdk::client::XlmNsClient;
use xlm_ns_sdk::errors::SdkError;
use xlm_ns_sdk::records::TextRecords;
use xlm_ns_sdk::step::Step;
use xlm_ns_sdk::types::{
    AddControllerRequest, AuctionCreateRequest, BidRequest, BuildMessageRequest,
    CreateSubdomainRequest, LedgerContext, RegisterChainRequest, RegisterParentRequest,
    TextRecordUpdate, TextRecordsUpdate, TransactionSubmission, TransferRequest,
    TransferSubdomainRequest,
};

fn ctx() -> LedgerContext {
    LedgerContext { ledger: 77, network_passphrase: "net".to_string() }
}

fn full() -> XlmNsClient {
    XlmNsClient::builder("u".to_string())
        .registry("CREG".to_string())
        .registrar("CRAR".to_string())
        .resolver("CRES".to_string())
        .auction("CAUC".to_string())
        .bridge("CBRI".to_string())
        .subdomain("CSUB".to_string())
        .nft("CNFT".to_string())
        .build()
}

fn bare() -> XlmNsClient {
    XlmNsClient::new("u".to_string(), None, None, None, None, None)
}

fn done_ok<T: std::fmt::Debug>(s: Step<T>) -> T {
    match s {
        Step::Done(Ok(v)) => v,
        other => panic!("unexpected {:?}", other),
    }
}

fn refused<T: std::fmt::Debug>(s: Step<T>) -> String {
    match s {
        Step::Done(Err(SdkError::InvalidRequest(m))) => m,
        other => panic!("unexpected {:?}", other),
    }
}

fn check_submission(s: &TransactionSubmission, hash: &str, signer: Option<&str>) {
    assert_eq!(s.tx_hash, hash);
    assert_eq!(s.ledger, Some(77));
    assert_eq!(s.signer.as_deref(), signer);
    assert_eq!(s.network_passphrase.as_deref(), Some("net"));
}

#[test]
fn set_text_record_submits_to_resolver() {
    let u = TextRecordUpdate {
        name: "a.xlm".to_string(),
        key: "url".to_string(),
        value: "https://x".to_string(),
        signer: Some("G".to_string()),
    };
    assert!(matches!(full().set_text_record(u.clone(), None), Step::FetchLedger));
    check_submission(&done_ok(full().set_text_record(u.clone(), Some(ctx()))),
        "set_text_record:CRES:CRES:77", Some("G"));
    let blank_key = TextRecordUpdate { key: " ".to_string(), ..u };
    assert_eq!(refused(full().set_text_record(blank_key, Some(ctx()))), "key must not be empty");
}

#[test]
fn set_text_records_needs_records() {
    let mut records = TextRecords::new();
    let empty = TextRecordsUpdate { name: "a".to_string(), records: records.clone(), signer: None };
    assert_eq!(refused(full().set_text_records(empty, None)), "records must not be empty");
    records.insert("k".to_string(), "v".to_string());
    let u = TextRecordsUpdate { name: "a".to_string(), records, signer: None };
    check_submission(&done_ok(bare().set_text_records(u, Some(ctx()))),
        "set_text_records:unconfigured:unconfigured:77", None);
}

#[test]
fn transfer_submits_to_registry() {
    let r = TransferRequest { name: "a".to_string(), new_owner: "B".to_string(), signer: None };
    check_submission(&done_ok(full().transfer(r.clone(), Some(ctx()))), "transfer:CREG:CREG:77", None);
    let r = TransferRequest { new_owner: "".to_string(), ..r };
    assert_eq!(refused(full().transfer(r, None)), "new_owner must not be empty");
}

#[test]
fn nft_operations() {
    check_submission(&done_ok(full().mint_nft("t1", "o", Some(ctx()))), "mint_nft:CNFT:CNFT:77", None);
    check_submission(&done_ok(full().approve_nft("t1", "op", Some(ctx()))), "approve_nft:CNFT:CNFT:77", None);
    check_submission(&done_ok(full().transfer_nft("t1", "n", Some(ctx()))), "transfer_nft:CNFT:CNFT:77", None);
    assert_eq!(refused(full().approve_nft("t1", "", None)), "operator must not be empty");
    assert_eq!(refused(full().mint_nft(" ", "o", None)), "token_id must not be empty");
}

#[test]
fn auction_operations() {
    let req = AuctionCreateRequest { name: "a".to_string(), reserve_price: 5, duration_seconds: 60, signer: None };
    check_submission(&done_ok(full().create_auction(req.clone(), Some(ctx()))), "create_auction:CAUC:CAUC:77", None);
    let zero_price = AuctionCreateRequest { reserve_price: 0, ..req.clone() };
    assert_eq!(refused(full().create_auction(zero_price, None)), "reserve_price must be greater than zero");
    let zero_time = AuctionCreateRequest { duration_seconds: 0, ..req };
    assert_eq!(refused(full().create_auction(zero_time, None)), "duration_seconds must be greater than zero");
    let bid = BidRequest { name: "a".to_string(), amount: 0, signer: None };
    assert_eq!(refused(full().bid_auction(bid.clone(), None)), "bid amount must be greater than zero");
    let bid = BidRequest { amount: 9, ..bid };
    check_submission(&done_ok(full().bid_auction(bid, Some(ctx()))), "bid_auction:CAUC:CAUC:77", None);
    check_submission(&done_ok(full().settle_auction("a", Some("S".to_string()), Some(ctx()))),
        "settle_auction:CAUC:CAUC:77", Some("S"));
}

#[test]
fn manifest_needs_labels_and_registrar() {
    assert_eq!(refused(full().load_reserved_manifest(Vec::new(), None, None)), "labels must not be empty");
    assert_eq!(refused(bare().load_reserved_manifest(vec!["x".to_string()], None, None)),
        "registrar contract ID not configured");
    check_submission(&done_ok(full().load_reserved_manifest(vec!["x".to_string()], None, Some(ctx()))),
        "load_reserved_manifest:CRAR:CRAR:77", None);
}

#[test]
fn registrar_counters() {
    assert_eq!(done_ok(full().get_treasury_balance(Some(ctx()))), 77_000);
    let m = done_ok(full().get_fee_metrics(Some(ctx())));
    assert_eq!(m.treasury_balance, 77_000);
    assert_eq!(m.total_registrations, 77);
    assert_eq!(m.total_renewals, 38);
    assert_eq!(refused(bare().get_treasury_balance(Some(ctx()))), "registrar contract ID not configured");
    assert!(matches!(full().get_fee_metrics(None), Step::FetchLedger));
}

#[test]
fn subdomain_operations() {
    let p = RegisterParentRequest { parent: "p.xlm".to_string(), owner: "o".to_string() };
    done_ok(full().register_parent(p.clone(), Some(ctx())));
    assert!(matches!(bare().register_parent(p.clone(), None), Step::FetchLedger));
    assert_eq!(refused(bare().register_parent(p, Some(ctx()))), "subdomain contract ID not configured");
    let a = AddControllerRequest { parent: "p".to_string(), controller: "".to_string() };
    assert_eq!(refused(full().add_controller(a, None)), "controller must not be empty");
    let cr = CreateSubdomainRequest { label: "blog".to_string(), parent: "alice.xlm".to_string(), owner: "o".to_string() };
    assert_eq!(done_ok(full().create_subdomain(cr.clone(), Some(ctx()))), "blog.alice.xlm");
    let cr = CreateSubdomainRequest { owner: " ".to_string(), ..cr };
    assert_eq!(refused(full().create_subdomain(cr, None)), "owner must not be empty");
    let t = TransferSubdomainRequest { fqdn: "b.a".to_string(), new_owner: "n".to_string() };
    done_ok(full().transfer_subdomain(t, Some(ctx())));
}

#[test]
fn chain_registration() {
    for chain in ["base", "ethereum", "arbitrum"] {
        done_ok(full().register_chain(RegisterChainRequest { chain: chain.to_string() }, Some(ctx())));
    }
    assert_eq!(refused(full().register_chain(RegisterChainRequest { chain: "solana".to_string() }, Some(ctx()))),
        "unsupported chain: solana");
    assert_eq!(refused(bare().register_chain(RegisterChainRequest { chain: "base".to_string() }, Some(ctx()))),
        "bridge contract ID not configured");
    assert!(matches!(bare().register_chain(RegisterChainRequest { chain: "base".to_string() }, None), Step::FetchLedger));
}

#[test]
fn routes_and_messages() {
    let r = done_ok(full().get_route("ethereum", Some(ctx()))).unwrap();
    assert_eq!(r.destination_resolver, "0xethResolver");
    assert_eq!(r.gateway, "0xethGateway");
    assert!(done_ok(full().get_route("solana", Some(ctx()))).is_none());
    let msg = done_ok(full().build_message(
        BuildMessageRequest { name: "alice.xlm".to_string(), chain: "base".to_string() }, Some(ctx())));
    assert_eq!(msg,
        "{\"type\":\"xlm-ns-resolution\",\"name\":\"alice.xlm\",\"destination_chain\":\"base\",\"resolver\":\"0xbaseResolver\"}");
    assert_eq!(refused(full().build_message(
        BuildMessageRequest { name: "a".to_string(), chain: "solana".to_string() }, Some(ctx()))),
        "unsupported chain: solana");
    assert_eq!(refused(full().build_message(
        BuildMessageRequest { name: "".to_string(), chain: "base".to_string() }, None)),
        "name must not be empty");
    let routes = full().get_bridge_routes("alice.xlm").unwrap();
    assert_eq!(routes.len(), 2);
    assert_eq!(routes[0].destination_chain, "ethereum");
    assert_eq!(routes[1].destination_chain, "base");
    assert_eq!(routes[1].gateway, "0xbaseGateway");
}

#[test]
fn refusal_does_not_depend_on_ledger() {
    let p = RegisterParentRequest { parent: " ".to_string(), owner: "o".to_string() };
    let without = refused(full().register_parent(p.clone(), None));
    let with = refused(full().register_parent(p, Some(ctx())));
    assert_eq!(without, with);
    assert_eq!(with, "parent must not be empty");
}
