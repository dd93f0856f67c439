use events_api_redis_to_db::amount::{normalize_decimal, normalize_prices, render_changes, Amount};
use events_api_redis_to_db::decimal::{
    digit_of, format_i128, format_u128, is_decimal, parse_digits, parse_i128, parse_i64,
    parse_u128, parse_u64,
};
use events_api_redis_to_db::time::{
    accept_millis, split_timestamp, timestamp_for_storage, Timestamp, NANOS_PER_SECOND,
};

#[test]
fn digits_have_their_values() {
    assert_eq!(digit_of('0'), Some(0));
    assert_eq!(digit_of('7'), Some(7));
    assert_eq!(digit_of('9'), Some(9));
    assert_eq!(digit_of('a'), None);
    assert_eq!(digit_of('+'), None);
}

#[test]
fn unsigned_text_is_read_exactly() {
    assert_eq!(parse_u128("0"), Some(0));
    assert_eq!(parse_u128("1000000000000000000000000"), Some(1_000_000_000_000_000_000_000_000));
    assert_eq!(parse_u128("340282366920938463463374607431768211455"), Some(u128::MAX));
    assert_eq!(parse_u128("+42"), Some(42));
    assert_eq!(parse_u128("007"), Some(7));
}

#[test]
fn unsigned_text_that_writes_no_number_is_refused() {
    assert_eq!(parse_u128(""), None);
    assert_eq!(parse_u128("+"), None);
    assert_eq!(parse_u128("-1"), None);
    assert_eq!(parse_u128("12a"), None);
    assert_eq!(parse_u128("1.5"), None);
    assert_eq!(parse_u128(" 1"), None);
    assert_eq!(parse_u128("340282366920938463463374607431768211456"), None);
    assert_eq!(parse_u128("9999999999999999999999999999999999999999999"), None);
}

#[test]
fn sixty_four_bits_have_their_bounds() {
    assert_eq!(parse_u64("18446744073709551615"), Some(u64::MAX));
    assert_eq!(parse_u64("18446744073709551616"), None);
    assert_eq!(parse_i64("9223372036854775807"), Some(i64::MAX));
    assert_eq!(parse_i64("9223372036854775808"), None);
    assert_eq!(parse_i64("-9223372036854775808"), Some(i64::MIN));
    assert_eq!(parse_i64("-9223372036854775809"), None);
    assert_eq!(parse_i64("-17"), Some(-17));
}

#[test]
fn signed_text_is_read_exactly() {
    assert_eq!(parse_i128("-170141183460469231731687303715884105728"), Some(i128::MIN));
    assert_eq!(parse_i128("170141183460469231731687303715884105727"), Some(i128::MAX));
    assert_eq!(parse_i128("170141183460469231731687303715884105728"), None);
    assert_eq!(parse_i128("-170141183460469231731687303715884105729"), None);
    assert_eq!(parse_i128("+5"), Some(5));
    assert_eq!(parse_i128("-"), None);
    assert_eq!(parse_i128("--5"), None);
    assert_eq!(parse_i128("-+5"), None);
}

#[test]
fn digits_are_read_from_a_place_on() {
    assert_eq!(parse_digits("ab123", 2, 1000), Some(123));
    assert_eq!(parse_digits("ab123", 2, 122), None);
    assert_eq!(parse_digits("ab123", 5, 1000), None);
    assert_eq!(parse_digits("ab123", 1, 1000), None);
    assert_eq!(parse_digits("7", 0, 6), None);
    assert_eq!(parse_digits("7", 0, 7), Some(7));
}

#[test]
fn integers_are_written_canonically() {
    assert_eq!(format_u128(0), "0");
    assert_eq!(format_u128(9), "9");
    assert_eq!(format_u128(10), "10");
    assert_eq!(format_u128(1_700_000_000_500_000_000), "1700000000500000000");
    assert_eq!(format_u128(u128::MAX), "340282366920938463463374607431768211455");
    assert_eq!(format_i128(0), "0");
    assert_eq!(format_i128(-1), "-1");
    assert_eq!(format_i128(i128::MIN), "-170141183460469231731687303715884105728");
    assert_eq!(format_i128(i128::MAX), "170141183460469231731687303715884105727");
}

#[test]
fn written_text_reads_back() {
    for n in [0u128, 1, 9, 10, 99, 100, 12345678901234567890, u128::MAX] {
        assert_eq!(parse_u128(&format_u128(n)), Some(n));
    }
    for v in [0i128, -1, 1, i128::MIN, i128::MAX, -1_000_000_007] {
        assert_eq!(parse_i128(&format_i128(v)), Some(v));
    }
}

#[test]
fn plain_decimals_are_told_apart() {
    assert!(is_decimal("0"));
    assert!(is_decimal("1.5"));
    assert!(is_decimal("0010.0100"));
    assert!(!is_decimal(""));
    assert!(!is_decimal("."));
    assert!(!is_decimal("1."));
    assert!(!is_decimal(".5"));
    assert!(!is_decimal("1.2.3"));
    assert!(!is_decimal("-1"));
    assert!(!is_decimal("1e5"));
    assert!(!is_decimal("1,5"));
}

#[test]
fn a_timestamp_splits_into_seconds_and_remainder() {
    assert_eq!(
        split_timestamp(1_700_000_000_500_000_000),
        Some(Timestamp { seconds: 1_700_000_000, nanos: 500_000_000 })
    );
    assert_eq!(split_timestamp(0), Some(Timestamp { seconds: 0, nanos: 0 }));
    assert_eq!(split_timestamp(999_999_999), Some(Timestamp { seconds: 0, nanos: 999_999_999 }));
    assert_eq!(split_timestamp(1_000_000_000), Some(Timestamp { seconds: 1, nanos: 0 }));
}

#[test]
fn the_split_recombines() {
    for t in [0u128, 1, 999_999_999, 1_000_000_001, 1_700_000_000_500_000_000, 9_223_372_036_854_775_807_999_999_999] {
        let ts = split_timestamp(t).unwrap();
        assert_eq!(ts.seconds as u128 * NANOS_PER_SECOND + ts.nanos as u128, t);
        assert!((ts.nanos as u128) < NANOS_PER_SECOND);
    }
}

#[test]
fn seconds_beyond_sixty_four_bits_are_refused_not_wrapped() {
    let last = 9_223_372_036_854_775_807_999_999_999u128;
    assert_eq!(split_timestamp(last), Some(Timestamp { seconds: i64::MAX, nanos: 999_999_999 }));
    assert_eq!(split_timestamp(last + 1), None);
    assert_eq!(split_timestamp(u128::MAX), None);
}

#[test]
fn only_instants_of_the_calendar_are_stored() {
    assert_eq!(
        timestamp_for_storage(1_700_000_000_500_000_000),
        Some(Timestamp { seconds: 1_700_000_000, nanos: 500_000_000 })
    );
    assert_eq!(timestamp_for_storage(9_223_372_036_854_775_807_000_000_000), None);
    assert_eq!(timestamp_for_storage(u128::MAX), None);
}

#[test]
fn milliseconds_outside_the_calendar_are_dropped() {
    assert_eq!(accept_millis(Some(1_700_000_000_123)), Some(1_700_000_000_123));
    assert_eq!(accept_millis(Some(-1)), Some(-1));
    assert_eq!(accept_millis(Some(i64::MAX)), None);
    assert_eq!(accept_millis(Some(i64::MIN)), None);
    assert_eq!(accept_millis(None), None);
}

#[test]
fn an_amount_keeps_every_digit() {
    let a = Amount::normalize(u128::MAX).unwrap();
    assert_eq!(a.units, u128::MAX);
    assert_eq!(a.text, "340282366920938463463374607431768211455");
    let zero = Amount::normalize(0).unwrap();
    assert_eq!(zero.text, "0");
    let big = Amount::normalize(1_000_000_000_000_000_000_000_000).unwrap();
    assert_eq!(big.text, "1000000000000000000000000");
}

#[test]
fn an_absent_amount_stays_absent() {
    assert_eq!(Amount::normalize_optional(None), Some(None));
    let some = Amount::normalize_optional(Some(25)).unwrap().unwrap();
    assert_eq!(some, Amount { units: 25, text: "25".to_string() });
}

#[test]
fn only_the_very_text_is_confirmed() {
    let ok = Amount::confirm(12, "12".to_string(), Some("12".to_string()));
    assert_eq!(ok, Some(Amount { units: 12, text: "12".to_string() }));
    assert_eq!(Amount::confirm(12, "12".to_string(), Some("12.0".to_string())), None);
    assert_eq!(Amount::confirm(12, "12".to_string(), Some("1.2E+1".to_string())), None);
    assert_eq!(Amount::confirm(12, "12".to_string(), None), None);
}

#[test]
fn decimal_text_goes_through_the_store_unchanged() {
    assert_eq!(normalize_decimal("1.5"), Some("1.5".to_string()));
    assert_eq!(normalize_decimal("0"), Some("0".to_string()));
    assert_eq!(normalize_decimal("123456789012345678901234567890.000001"), Some("123456789012345678901234567890.000001".to_string()));
    assert_eq!(normalize_decimal("abc"), None);
    assert_eq!(normalize_decimal("1e3"), None);
    assert_eq!(normalize_decimal(""), None);
}

#[test]
fn a_decimal_that_the_store_writes_otherwise_is_refused() {
    assert_eq!(normalize_decimal("0.0000000000001"), None);
}

#[test]
fn a_missing_price_is_stored_as_zero() {
    let prices = vec![None, Some("1.5".to_string()), Some("7".to_string())];
    assert_eq!(
        normalize_prices(&prices),
        Some(vec!["0".to_string(), "1.5".to_string(), "7".to_string()])
    );
    assert_eq!(normalize_prices(&vec![]), Some(vec![]));
    assert_eq!(normalize_prices(&vec![Some("x".to_string())]), None);
}

#[test]
fn balance_changes_are_written_as_text() {
    let changes = vec![("wrap.near".to_string(), -5i128), ("usdt.near".to_string(), i128::MAX)];
    assert_eq!(
        render_changes(&changes),
        vec![
            ("wrap.near".to_string(), "-5".to_string()),
            ("usdt.near".to_string(), "170141183460469231731687303715884105727".to_string()),
        ]
    );
}
