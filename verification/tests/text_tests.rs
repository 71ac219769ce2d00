use xlm_ns_sdk::errors::{contract_id_error, SdkError};
use xlm_ns_sdk::pricing::{price_for_label_length, saturating_mul};
use xlm_ns_sdk::records::TextRecords;
use xlm_ns_sdk::registration::trimmed_byte_len;
use xlm_ns_sdk::text::{first_segment_of, is_blank_str, is_whitespace, push_decimal, str_eq, trim_bounds};
use xlm_ns_sdk::types::FeeBreakdown;

#[test]
fn whitespace_set() {
    for c in [' ', '\t', '\n', '\u{0B}', '\u{0C}', '\r', '\u{85}', '\u{A0}', '\u{1680}', '\u{2000}',
        '\u{200A}', '\u{2028}', '\u{2029}', '\u{202F}', '\u{205F}', '\u{3000}'] {
        assert!(is_whitespace(c));
        assert_eq!(is_whitespace(c), c.is_whitespace());
    }
    for c in ['a', '\u{200B}', '\u{FEFF}', '_'] {
        assert!(!is_whitespace(c));
        assert_eq!(is_whitespace(c), c.is_whitespace());
    }
}

#[test]
fn trimming() {
    assert_eq!(trim_bounds("  ab c \t"), (2, 6));
    assert_eq!(trim_bounds(""), (0, 0));
    assert!(is_blank_str(" \u{3000} "));
    assert!(!is_blank_str(" x "));
    assert_eq!(trimmed_byte_len("  é  "), 2);
    assert_eq!(trimmed_byte_len(" abc "), "abc".len());
}

#[test]
fn decimals_and_segments() {
    let mut s = "x".to_string();
    push_decimal(&mut s, 0);
    push_decimal(&mut s, 1234567890);
    assert_eq!(s, "x01234567890");
    let mut m = String::new();
    push_decimal(&mut m, u64::MAX);
    assert_eq!(m, u64::MAX.to_string());
    assert_eq!(first_segment_of("alice.xlm"), "alice");
    assert_eq!(first_segment_of("a.b.c"), "a");
    assert_eq!(first_segment_of("plain"), "plain");
    assert!(str_eq("abc", "abc"));
    assert!(!str_eq("abc", "abd"));
    assert!(!str_eq("ab", "abc"));
}

#[test]
fn prices_and_fees() {
    assert_eq!(price_for_label_length(0), 1_000_000_000);
    assert_eq!(price_for_label_length(3), 1_000_000_000);
    assert_eq!(price_for_label_length(4), 250_000_000);
    assert_eq!(price_for_label_length(6), 250_000_000);
    assert_eq!(price_for_label_length(7), 100_000_000);
    assert_eq!(saturating_mul(u64::MAX, 2), u64::MAX);
    assert_eq!(saturating_mul(3, 4), 12);
    let f = FeeBreakdown { base_fee: 5, premium_fee: 6, network_fee: 7 };
    assert_eq!(f.total(), 18);
    let f = FeeBreakdown { base_fee: u64::MAX, premium_fee: 1, network_fee: 0 };
    assert_eq!(f.total(), u64::MAX);
}

#[test]
fn records_replace_on_insert() {
    let mut r = TextRecords::new();
    assert!(r.is_empty());
    r.insert("k".to_string(), "v1".to_string());
    r.insert("k".to_string(), "v2".to_string());
    assert!(!r.is_empty());
    assert_eq!(r.get("k").map(|s| s.as_str()), Some("v2"));
    assert_eq!(r.get("missing"), None);
}

#[test]
fn contract_error_text() {
    match contract_id_error("bridge") {
        SdkError::InvalidRequest(m) => assert_eq!(m, "bridge contract ID not configured"),
        other => panic!("unexpected {:?}", other),
    }
}
