use cursor_server::text::{chars_of, decimal, is_blank, join, split, str_eq, trim};
use cursor_server::token::{format_token_count, parse_token_count};
use cursor_server::trace::{CursorRunTraceArtifact, CursorRunTraceSummary};

#[test]
fn token_counts_parse_with_suffixes() {
    assert_eq!(parse_token_count("200k"), Some(200_000));
    assert_eq!(parse_token_count("356K"), Some(356_000));
    assert_eq!(parse_token_count(" 1m "), Some(1_000_000));
    assert_eq!(parse_token_count("1M"), Some(1_000_000));
    assert_eq!(parse_token_count("128000"), Some(128_000));
    assert_eq!(parse_token_count("18446744073709551615"), Some(u64::MAX));
}

#[test]
fn malformed_token_counts_are_refused() {
    assert_eq!(parse_token_count(""), None);
    assert_eq!(parse_token_count("k"), None);
    assert_eq!(parse_token_count("1.5m"), None);
    assert_eq!(parse_token_count("12 k"), None);
    assert_eq!(parse_token_count("-5"), None);
    assert_eq!(parse_token_count("18446744073709551616"), None);
    assert_eq!(parse_token_count("20000000000000000k"), None);
}

#[test]
fn token_counts_format_by_magnitude() {
    assert_eq!(format_token_count(1_000_000), "1M");
    assert_eq!(format_token_count(2_000_000), "2M");
    assert_eq!(format_token_count(1_500_000), "1500K");
    assert_eq!(format_token_count(128_000), "128K");
    assert_eq!(format_token_count(1_234), "1234");
    assert_eq!(format_token_count(0), "0");
    for n in [0u64, 7, 10, 128_000, 1_000_000, u64::MAX] {
        assert_eq!(parse_token_count(&decimal(n)), Some(n));
        assert_eq!(decimal(n), n.to_string());
    }
}

#[test]
fn trimming_follows_unicode_whitespace() {
    assert_eq!(trim("  a b \t\n"), "a b");
    assert_eq!(trim("\u{3000}x\u{a0}"), "x");
    assert_eq!(trim(""), "");
    assert!(is_blank(" \u{2028} "));
    assert!(!is_blank(" x "));
    for s in ["  a ", "\u{85}b\u{205f}", "c", "\u{1680}"] {
        assert_eq!(trim(s), s.trim());
    }
}

#[test]
fn splitting_and_joining() {
    assert_eq!(split("a.b.c", '.'), vec!["a", "b", "c"]);
    assert_eq!(split("", '.'), vec![""]);
    assert_eq!(split(".x.", '.'), vec!["", "x", ""]);
    let parts = vec!["a".to_string(), "b".to_string()];
    assert_eq!(join(&parts, " "), "a b");
    assert_eq!(join(&Vec::new(), " "), "");
    assert!(str_eq("abc", "abc"));
    assert!(!str_eq("abc", "abd"));
    assert_eq!(chars_of("héllo"), vec!['h', 'é', 'l', 'l', 'o']);
}

#[test]
fn trace_records_hold_their_fields() {
    let summary = CursorRunTraceSummary {
        request_id: "r1".into(),
        conversation_id: None,
        route: "/agent".into(),
        model_id: Some("m".into()),
        reasoning_effort: Some("high".into()),
        fast: Some(false),
        status: "ok".into(),
        request_bytes: 10,
        response_bytes: 20,
        response_event_count: 3,
        http_status: Some(200),
        received_at_ms: 1,
        first_response_at_ms: Some(2),
        finished_at_ms: Some(3),
        error_message: None,
    };
    assert_eq!(summary.clone().request_bytes, 10);
    let artifact = CursorRunTraceArtifact {
        seq: 1,
        artifact_type: "request".into(),
        source: "client".into(),
        metadata: serde_json::Value::Null,
        created_at_ms: 5,
        data: vec![1, 2],
    };
    assert_eq!(artifact.clone().data, vec![1, 2]);
}
