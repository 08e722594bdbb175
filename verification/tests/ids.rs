//! Object ids, times, numbers, addresses, permissions, plans.
use roomler::ip::{is_loopback_literal, max_prefix, parse_ipv4, parse_ipv6};
use roomler::models::permissions::{
    has, ADMINISTRATOR, ALL, DEFAULT_ADMIN, DEFAULT_MEMBER, MANAGE_TENANT, SEND_MESSAGES,
};
use roomler::models::tenant::Plan;
use roomler::num::{parse_up_to, to_decimal};
use roomler::oid::{text_or_millis, DateTime, ObjectId};

#[test]
fn ids_are_24_hexadecimal_digits() {
    let o = ObjectId::parse_str("507f1f77bcf86cd799439011").expect("an id");
    assert_eq!(o.hi, 0x507f1f77);
    assert_eq!(o.lo, 0xbcf86cd799439011);
    assert_eq!(o.to_hex(), "507f1f77bcf86cd799439011");
    let upper = ObjectId::parse_str("507F1F77BCF86CD799439011").expect("an id");
    assert_eq!(upper, o);
    assert_eq!(upper.to_hex(), "507f1f77bcf86cd799439011");
}

#[test]
fn what_is_no_id_is_refused() {
    for s in [
        "",
        "507f1f77bcf86cd79943901",
        "507f1f77bcf86cd7994390111",
        "507f1f77bcf86cd79943901g",
        " 507f1f77bcf86cd79943901",
        "not-an-object-id-at-all!",
        "507f1f77bcf86cd7994390é",
    ] {
        assert_eq!(ObjectId::parse_str(s), None, "{}", s);
    }
}

#[test]
fn hexadecimal_round_trip_at_the_edges() {
    for o in [
        ObjectId { hi: 0, lo: 0 },
        ObjectId { hi: 0, lo: 15 },
        ObjectId { hi: u32::MAX, lo: u64::MAX },
        ObjectId { hi: 1, lo: 0 },
    ] {
        assert_eq!(o.to_hex().len(), 24);
        assert_eq!(ObjectId::parse_str(&o.to_hex()), Some(o));
    }
}

#[test]
fn ids_are_ordered_by_their_bytes() {
    let a = ObjectId { hi: 1, lo: u64::MAX };
    let b = ObjectId { hi: 2, lo: 0 };
    assert!(a.before(b));
    assert!(!b.before(a));
    assert!(!a.before(a));
}

#[test]
fn times_are_written_as_rfc_3339() {
    assert_eq!(DateTime { millis: 0 }.to_text(), "1970-01-01T00:00:00Z");
    assert_eq!(
        DateTime { millis: 1_700_000_000_123 }.to_text(),
        "2023-11-14T22:13:20.123Z"
    );
    assert_eq!(
        DateTime { millis: 1_700_000_000_123 }.fmt_dt(),
        "2023-11-14T22:13:20.123Z"
    );
}

#[test]
fn a_time_beyond_the_calendar_has_no_text() {
    assert_eq!(DateTime { millis: i64::MAX }.to_text(), "");
    assert_eq!(DateTime { millis: i64::MAX }.fmt_dt(), "9223372036854775807");
    assert_eq!(DateTime { millis: i64::MIN }.fmt_dt(), "-9223372036854775808");
    assert_eq!(text_or_millis(None, -5), "-5");
    assert_eq!(text_or_millis(Some("x".to_string()), -5), "x");
}

#[test]
fn numbers_are_read_back() {
    assert_eq!(to_decimal(0), "0");
    assert_eq!(to_decimal(u64::MAX), "18446744073709551615");
    assert_eq!(parse_up_to("+42", 100), Some(42));
    assert_eq!(parse_up_to("042", 100), Some(42));
    assert_eq!(parse_up_to("101", 100), None);
    assert_eq!(parse_up_to("-1", 100), None);
    assert_eq!(parse_up_to("", 100), None);
    assert_eq!(parse_up_to("+", 100), None);
    assert_eq!(parse_up_to("99999999999999999999", u32::MAX), None);
    for n in [0u32, 7, 65535, u32::MAX] {
        assert_eq!(parse_up_to(&to_decimal(n as u64), u32::MAX), Some(n));
    }
}

#[test]
fn addresses_are_told_apart() {
    assert_eq!(parse_ipv4("10.0.0.1"), Some(vec![10, 0, 0, 1]));
    assert_eq!(parse_ipv4("10.0.0.256"), None);
    assert_eq!(parse_ipv4("10.0.0"), None);
    assert!(parse_ipv6("fe80::1").is_some());
    assert!(parse_ipv6("::").is_some());
    assert!(parse_ipv6(":::").is_none());
    assert_eq!(max_prefix("10.0.0.1"), Some(32));
    assert_eq!(max_prefix("fe80::1"), Some(128));
    assert_eq!(max_prefix("roomler.ai"), None);
    assert!(is_loopback_literal("127.9.9.9"));
    assert!(is_loopback_literal("::1"));
    assert!(!is_loopback_literal("128.0.0.1"));
}

#[test]
fn permissions_are_granted_flag_by_flag() {
    assert!(has(DEFAULT_MEMBER, SEND_MESSAGES));
    assert!(!has(DEFAULT_MEMBER, MANAGE_TENANT));
    assert!(!has(DEFAULT_MEMBER, MANAGE_TENANT | SEND_MESSAGES));
    assert!(has(ADMINISTRATOR, MANAGE_TENANT));
    assert!(has(DEFAULT_ADMIN, MANAGE_TENANT));
    assert_eq!(DEFAULT_ADMIN | ADMINISTRATOR, ALL);
    assert_eq!(DEFAULT_ADMIN & ADMINISTRATOR, 0);
}

#[test]
fn plans_grow() {
    let plans = [Plan::Free, Plan::Pro, Plan::Business, Plan::Enterprise];
    for w in plans.windows(2) {
        assert!(w[0].limits().max_members <= w[1].limits().max_members);
        assert!(w[0].limits().storage_bytes <= w[1].limits().storage_bytes);
    }
    assert_eq!(Plan::Free.price_monthly_cents(), 0);
    assert_eq!(Plan::Free.label(), "Free");
}
