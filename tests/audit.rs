use x_liquidity_engine::audit::{
    create_audit_log_internal, encode_audit_record, hash_matches, is_untampered,
};
use x_liquidity_engine::key::Key;
use x_liquidity_engine::state::AuditPayload;
use x_liquidity_engine::types::{AuditEventType, Clock, PriceRange};

const T0: i64 = 1_700_000_000;

fn hex(bytes: &[u8]) -> String {
    bytes.iter().map(|b| format!("{:02x}", b)).collect()
}

fn rebalance_payload() -> AuditPayload {
    AuditPayload::Rebalanced {
        old_range: PriceRange { tick_lower: -100, tick_upper: 100, price_lower: 1_000, price_upper: 2_000 },
        new_range: PriceRange { tick_lower: -50, tick_upper: 150, price_lower: 1_200, price_upper: 2_400 },
    }
}

#[test]
fn encoding_of_a_payment_record() {
    let clock = Clock { unix_timestamp: T0, slot: 850_000_000 };
    let bytes = encode_audit_record(AuditEventType::PaymentReceived, None, Key::new([60u8; 32]), AuditPayload::Empty, &clock);
    let mut expected = vec![4u8, 0];
    expected.extend_from_slice(&[60u8; 32]);
    expected.push(0);
    expected.extend_from_slice(&T0.to_le_bytes());
    expected.extend_from_slice(&850_000_000u64.to_le_bytes());
    assert_eq!(bytes, expected);
}

#[test]
fn encoding_of_a_rebalance_record() {
    let clock = Clock { unix_timestamp: T0 + 10, slot: (T0 + 10) as u64 / 2 };
    let bytes = encode_audit_record(
        AuditEventType::Rebalanced,
        Some(Key::new([10u8; 32])),
        Key::new([11u8; 32]),
        rebalance_payload(),
        &clock,
    );
    assert_eq!(bytes.len(), 163);
    assert_eq!(&bytes[..2], &[2u8, 1]);
    assert_eq!(bytes[66], 1);
    assert_eq!(&bytes[67..71], &(-100i32).to_le_bytes());
    assert_eq!(&bytes[71..75], &100i32.to_le_bytes());
    assert_eq!(&bytes[75..91], &1_000u128.to_le_bytes());
}

#[test]
fn content_hash_of_a_payment_record() {
    let clock = Clock { unix_timestamp: T0, slot: 850_000_000 };
    let log = create_audit_log_internal(AuditEventType::PaymentReceived, None, Key::new([60u8; 32]), AuditPayload::Empty, &clock);
    assert_eq!(hex(&log.event_hash), "6f2e04c2f19552425a35181b9a5a855373a8c72dcae0351b998d4f238151efd4");
    assert_eq!(log.created_at, T0);
    assert_eq!(log.slot, 850_000_000);
    assert!(is_untampered(&log));
}

#[test]
fn content_hash_of_a_rebalance_record() {
    let clock = Clock { unix_timestamp: T0 + 10, slot: (T0 + 10) as u64 / 2 };
    let log = create_audit_log_internal(
        AuditEventType::Rebalanced,
        Some(Key::new([10u8; 32])),
        Key::new([11u8; 32]),
        rebalance_payload(),
        &clock,
    );
    assert_eq!(hex(&log.event_hash), "18e852157c8d8dfdb3403607871c6de6c031aa9a2e3c4d4c4e9f46f035db19a9");
}

#[test]
fn tampering_is_detected() {
    let clock = Clock { unix_timestamp: T0, slot: 7 };
    let mut log = create_audit_log_internal(
        AuditEventType::FeesCollected,
        Some(Key::new([1u8; 32])),
        Key::new([2u8; 32]),
        AuditPayload::FeesCollected { amount_a: 10, amount_b: 20 },
        &clock,
    );
    assert!(is_untampered(&log));
    let digest = log.event_hash;
    assert!(hash_matches(&log, &digest));
    log.event_data = AuditPayload::FeesCollected { amount_a: 10, amount_b: 21 };
    assert!(!is_untampered(&log));
    let mut other = digest;
    other[0] ^= 1;
    assert!(!hash_matches(&log, &other));
}
