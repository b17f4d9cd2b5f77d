use otel_inspect::ids::{nanos, span_id_from, trace_id_from};
use otel_inspect::{
    bytes_to_hex, is_valid, is_valid_span_id, is_valid_trace_id, Nanoseconds, SpanId, TraceId,
};

#[test]
fn common_test_invalid_trace_id_all_zeros() {
    let bytes = vec![0u8; 16];
    let trace_id = TraceId::try_from(&bytes).ok();
    assert_eq!(trace_id, None);
}

#[test]
fn common_test_invalid_trace_id_less_than_16_bytes() {
    let bytes = vec![0x01, 0x02];
    let trace_id = TraceId::try_from(&bytes).ok();
    assert_eq!(trace_id, None);
}

#[test]
fn common_test_valid_trace_id_some_zeros() {
    let bytes = vec![0u8, 1, 2, 3, 4, 5, 6, 7, 8, 9, 10, 11, 12, 13, 14, 15];
    let trace_id = TraceId::try_from(&bytes).ok();
    assert_eq!(
        trace_id.map(|t| t.as_str().to_string()),
        Some("000102030405060708090a0b0c0d0e0f".to_string())
    );
}

#[test]
fn traces_test_invalid_trace_id_all_zeros() {
    let bytes = vec![0u8; 16];
    let trace_id = TraceId::try_from(&bytes).ok();
    assert_eq!(trace_id, None);
}

#[test]
fn traces_test_invalid_trace_id_less_than_16_bytes() {
    let bytes = vec![0x01, 0x02];
    let trace_id = TraceId::try_from(&bytes).ok();
    assert_eq!(trace_id, None);
}

#[test]
fn traces_test_valid_trace_id_some_zeros() {
    let bytes = vec![0u8, 1, 2, 3, 4, 5, 6, 7, 8, 9, 10, 11, 12, 13, 14, 15];
    let trace_id = TraceId::try_from(&bytes).ok();
    assert_eq!(
        trace_id.map(|t| t.as_str().to_string()),
        Some("000102030405060708090a0b0c0d0e0f".to_string())
    );
}

#[test]
fn trace_id_of_seventeen_bytes_is_absent() {
    let bytes = vec![1u8; 17];
    assert!(TraceId::try_from(&bytes).is_err());
    assert!(trace_id_from(&bytes).is_none());
}

#[test]
fn trace_id_with_high_bytes_is_lowercase_hex() {
    let bytes = vec![0xffu8, 0xab, 0, 0, 0, 0, 0, 0, 0, 0, 0, 0, 0, 0, 0, 0x10];
    let id = trace_id_from(&bytes).unwrap();
    assert_eq!(id.as_str(), "ffab0000000000000000000000000010");
}

#[test]
fn span_id_rules_mirror_trace_id_at_eight_bytes() {
    assert!(SpanId::try_from(&vec![0u8; 8]).is_err());
    assert!(SpanId::try_from(&vec![1u8; 7]).is_err());
    assert!(SpanId::try_from(&vec![1u8; 16]).is_err());
    let id = span_id_from(&vec![0u8, 0, 0, 0, 0, 0, 0, 0x2a]).unwrap();
    assert_eq!(id.as_str(), "000000000000002a");
}

#[test]
fn validity_needs_size_and_a_nonzero_byte() {
    assert!(is_valid(&[0, 0, 3], 3));
    assert!(!is_valid(&[0, 0, 0], 3));
    assert!(!is_valid(&[1, 2], 3));
    assert!(!is_valid(&[], 0));
}

#[test]
fn hex_of_bytes() {
    assert_eq!(bytes_to_hex(&vec![]), "");
    assert_eq!(bytes_to_hex(&vec![0x0f, 0xf0, 0x9a]), "0ff09a");
}

#[test]
fn nanoseconds_are_decimal_text() {
    assert_eq!(nanos(0).as_str(), "0");
    assert_eq!(nanos(1700000000000000000).as_str(), "1700000000000000000");
    assert_eq!(nanos(u64::MAX).as_str(), "18446744073709551615");
    assert_eq!(Nanoseconds::from(42u64).as_str(), "42");
}

#[test]
fn id_validity_predicates() {
    assert!(is_valid_trace_id(&vec![0u8, 0, 0, 0, 0, 0, 0, 0, 0, 0, 0, 0, 0, 0, 0, 1]));
    assert!(!is_valid_trace_id(&vec![0u8; 16]));
    assert!(!is_valid_trace_id(&vec![1u8; 8]));
    assert!(is_valid_span_id(&vec![1u8; 8]));
    assert!(!is_valid_span_id(&vec![0u8; 8]));
}
