use vstd::prelude::*;
use crate::key::Key;
use crate::state::{AuditLog, AuditPayload};
use crate::types::{AuditEventType, Clock, PriceRange};

verus! {

/// The SHA-256 digest of a byte string.
pub uninterp spec fn sha256_of(data: Seq<u8>) -> Seq<u8>;

/// Relies on solana_program::hash::hash: the SHA-256 digest of the bytes,
/// which depends on the bytes alone.
#[verifier::external_body]
fn content_hash(data: &Vec<u8>) -> (r: [u8; 32])
    ensures
        r@ == sha256_of(data@),
{
    anchor_lang::solana_program::hash::hash(data.as_slice()).to_bytes()
}

/// The `n` low-order bytes of `x`, least significant first.
pub open spec fn le_bytes(x: nat, n: nat) -> Seq<u8>
    decreases n,
{
    if n == 0 {
        seq![]
    } else {
        seq![(x % 256) as u8] + le_bytes(x / 256, (n - 1) as nat)
    }
}

/// One byte per event kind, in declaration order.
pub open spec fn event_tag(e: AuditEventType) -> u8 {
    match e {
        AuditEventType::PositionCreated => 0,
        AuditEventType::PositionClosed => 1,
        AuditEventType::Rebalanced => 2,
        AuditEventType::FeesCollected => 3,
        AuditEventType::PaymentReceived => 4,
        AuditEventType::PolicyViolation => 5,
        AuditEventType::HumanApprovalRequired => 6,
        AuditEventType::HumanApprovalGranted => 7,
        AuditEventType::DecisionCreated => 8,
    }
}

/// A range as its four bounds, little-endian, ticks in two's complement.
pub open spec fn range_bytes(r: PriceRange) -> Seq<u8> {
    le_bytes((r.tick_lower as u32) as nat, 4) + le_bytes((r.tick_upper as u32) as nat, 4)
        + le_bytes(r.price_lower as nat, 16) + le_bytes(r.price_upper as nat, 16)
}

/// A payload as a tag byte followed by its fields.
pub open spec fn payload_bytes(p: AuditPayload) -> Seq<u8> {
    match p {
        AuditPayload::Empty => seq![0u8],
        AuditPayload::Rebalanced { old_range, new_range } => seq![1u8] + range_bytes(old_range)
            + range_bytes(new_range),
        AuditPayload::FeesCollected { amount_a, amount_b } => seq![2u8] + le_bytes(
            amount_a as nat,
            8,
        ) + le_bytes(amount_b as nat, 8),
    }
}

/// The bytes an audit record's content hash is taken over: kind, optional
/// position, user, payload, time and slot.
pub open spec fn audit_encoding(
    event_type: AuditEventType,
    position: Option<Key>,
    user: Key,
    payload: AuditPayload,
    clock: Clock,
) -> Seq<u8> {
    seq![event_tag(event_type)] + match position {
        None => seq![0u8],
        Some(k) => seq![1u8] + k.bytes@,
    } + user.bytes@ + payload_bytes(payload) + le_bytes((clock.unix_timestamp as u64) as nat, 8)
        + le_bytes(clock.slot as nat, 8)
}

/// `log` records the event, stamped with the clock and hashed over its content.
pub open spec fn is_audit_record(
    log: AuditLog,
    event_type: AuditEventType,
    position: Option<Key>,
    user: Key,
    payload: AuditPayload,
    clock: Clock,
) -> bool {
    &&& log.event_type == event_type
    &&& log.position == position
    &&& log.user == user
    &&& log.event_data == payload
    &&& log.created_at == clock.unix_timestamp
    &&& log.slot == clock.slot
    &&& log.event_hash@ == sha256_of(audit_encoding(event_type, position, user, payload, clock))
}

/// The bytes a stored record's hash should have been taken over.
pub open spec fn log_encoding(log: AuditLog) -> Seq<u8> {
    audit_encoding(
        log.event_type,
        log.position,
        log.user,
        log.event_data,
        Clock { unix_timestamp: log.created_at, slot: log.slot },
    )
}

fn push_le(out: &mut Vec<u8>, x: u128, n: usize)
    requires
        n <= 16,
    ensures
        final(out)@ == old(out)@ + le_bytes(x as nat, n as nat),
{
    let mut v: u128 = x;
    let mut i: usize = 0;
    while i < n
        invariant
            i <= n,
            out@ + le_bytes(v as nat, (n - i) as nat) == old(out)@ + le_bytes(x as nat, n as nat),
        decreases n - i,
    {
        let ghost before = out@;
        out.push((v % 256) as u8);
        assert(le_bytes(v as nat, (n - i) as nat) == seq![(v % 256) as u8] + le_bytes(
            (v / 256) as nat,
            (n - i - 1) as nat,
        ));
        assert(out@ + le_bytes((v / 256) as nat, (n - i - 1) as nat) =~= before + le_bytes(
            v as nat,
            (n - i) as nat,
        ));
        v = v / 256;
        i = i + 1;
    }
    assert(le_bytes(v as nat, 0) =~= Seq::<u8>::empty());
    assert(out@ =~= out@ + le_bytes(v as nat, 0));
}

fn push_bytes(out: &mut Vec<u8>, bytes: &[u8; 32])
    ensures
        final(out)@ == old(out)@ + bytes@,
{
    let mut i: usize = 0;
    while i < 32
        invariant
            i <= 32,
            out@ == old(out)@ + bytes@.subrange(0, i as int),
        decreases 32 - i,
    {
        out.push(bytes[i]);
        assert(bytes@.subrange(0, i + 1) =~= bytes@.subrange(0, i as int) + seq![bytes@[i as int]]);
        i = i + 1;
    }
    assert(bytes@.subrange(0, 32) =~= bytes@);
}

fn push_range(out: &mut Vec<u8>, r: &PriceRange)
    ensures
        final(out)@ == old(out)@ + range_bytes(*r),
{
    push_le(out, (r.tick_lower as u32) as u128, 4);
    push_le(out, (r.tick_upper as u32) as u128, 4);
    push_le(out, r.price_lower, 16);
    push_le(out, r.price_upper, 16);
    assert(out@ =~= old(out)@ + range_bytes(*r));
}

/// The bytes an audit record's content hash is taken over.
pub fn encode_audit_record(
    event_type: AuditEventType,
    position: Option<Key>,
    user: Key,
    payload: AuditPayload,
    clock: &Clock,
) -> (r: Vec<u8>)
    ensures
        r@ == audit_encoding(event_type, position, user, payload, *clock),
{
    let mut out: Vec<u8> = Vec::new();
    let tag: u8 = match event_type {
        AuditEventType::PositionCreated => 0,
        AuditEventType::PositionClosed => 1,
        AuditEventType::Rebalanced => 2,
        AuditEventType::FeesCollected => 3,
        AuditEventType::PaymentReceived => 4,
        AuditEventType::PolicyViolation => 5,
        AuditEventType::HumanApprovalRequired => 6,
        AuditEventType::HumanApprovalGranted => 7,
        AuditEventType::DecisionCreated => 8,
    };
    out.push(tag);
    let ghost head = out@;
    match position {
        None => out.push(0u8),
        Some(k) => {
            out.push(1u8);
            push_bytes(&mut out, &k.bytes);
        },
    }
    let ghost with_position = out@;
    push_bytes(&mut out, &user.bytes);
    let ghost with_user = out@;
    match payload {
        AuditPayload::Empty => out.push(0u8),
        AuditPayload::Rebalanced { old_range, new_range } => {
            out.push(1u8);
            push_range(&mut out, &old_range);
            push_range(&mut out, &new_range);
        },
        AuditPayload::FeesCollected { amount_a, amount_b } => {
            out.push(2u8);
            push_le(&mut out, amount_a as u128, 8);
            push_le(&mut out, amount_b as u128, 8);
        },
    }
    assert(out@ =~= with_user + payload_bytes(payload));
    push_le(&mut out, (clock.unix_timestamp as u64) as u128, 8);
    push_le(&mut out, clock.slot as u128, 8);
    assert(with_position =~= head + match position {
        None => seq![0u8],
        Some(k) => seq![1u8] + k.bytes@,
    });
    assert(out@ =~= audit_encoding(event_type, position, user, payload, *clock));
    out
}

/// Builds the audit record that an operation hands to the audit sink, with
/// its content hash.
pub fn create_audit_log_internal(
    event_type: AuditEventType,
    position: Option<Key>,
    user: Key,
    payload: AuditPayload,
    clock: &Clock,
) -> (r: AuditLog)
    ensures
        is_audit_record(r, event_type, position, user, payload, *clock),
{
    let bytes = encode_audit_record(event_type, position, user, payload, clock);
    AuditLog {
        event_type,
        position,
        user,
        event_data: payload,
        event_hash: content_hash(&bytes),
        created_at: clock.unix_timestamp,
        slot: clock.slot,
    }
}

/// Whether the record's stored hash is the given digest.
pub fn hash_matches(log: &AuditLog, digest: &[u8; 32]) -> (r: bool)
    ensures
        r == (log.event_hash@ == digest@),
{
    let mut i: usize = 0;
    while i < 32
        invariant
            i <= 32,
            forall|j: int| 0 <= j < i ==> log.event_hash@[j] == digest@[j],
        decreases 32 - i,
    {
        if log.event_hash[i] != digest[i] {
            return false;
        }
        i = i + 1;
    }
    assert(log.event_hash@ =~= digest@);
    true
}

/// Whether the record still matches its content hash, i.e. none of its
/// fields changed since it was made.
pub fn is_untampered(log: &AuditLog) -> (r: bool)
    ensures
        r == (log.event_hash@ == sha256_of(log_encoding(*log))),
{
    let clock = Clock { unix_timestamp: log.created_at, slot: log.slot };
    let bytes = encode_audit_record(log.event_type, log.position, log.user, log.event_data, &clock);
    let digest = content_hash(&bytes);
    hash_matches(log, &digest)
}

} // verus!
