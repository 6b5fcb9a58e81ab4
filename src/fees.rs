use vstd::prelude::*;
use crate::audit::{create_audit_log_internal, is_audit_record};
use crate::contexts::CollectFees;
use crate::error::XLiquidityEngineError;
use crate::key::Key;
use crate::state::{AuditLog, AuditPayload, LiquidityPosition, ProtocolConfig};
use crate::types::{AuditEventType, Clock, PositionStatus};

verus! {

/// Basis points in a whole.
pub const BPS_DENOMINATOR: u128 = 10000;

/// The protocol's cut of `accrued` at `fee_bps` basis points. Division
/// truncates: the remainder stays with the position's liquidity provider.
pub open spec fn protocol_share(accrued: u64, fee_bps: u16) -> int {
    (accrued * fee_bps) / 10000
}

/// What a fee collection reports: the amounts taken out of the position's
/// accrual counters and the protocol's cut of each.
#[derive(Clone, Copy, Debug, PartialEq, Eq, Structural)]
pub struct FeeCollection {
    pub collected_a: u64,
    pub collected_b: u64,
    pub protocol_fee_a: u128,
    pub protocol_fee_b: u128,
}

/// Why `owner` cannot collect the position's fees, if they cannot.
pub open spec fn collect_error(p: LiquidityPosition, owner: Key) -> Option<XLiquidityEngineError> {
    if p.owner != owner || p.status != PositionStatus::Active {
        Some(XLiquidityEngineError::PositionNotActive)
    } else if p.total_fees_earned_a == 0 && p.total_fees_earned_b == 0 {
        Some(XLiquidityEngineError::NoFeesToCollect)
    } else {
        None
    }
}

/// The position after its fees were collected at time `now`.
pub open spec fn collected_position(p: LiquidityPosition, now: i64) -> LiquidityPosition {
    LiquidityPosition { total_fees_earned_a: 0, total_fees_earned_b: 0, updated_at: now, ..p }
}

/// The protocol's cut of `accrued` at `fee_bps` basis points, rounded down.
pub fn protocol_fee(accrued: u64, fee_bps: u16) -> (r: u128)
    ensures
        r == protocol_share(accrued, fee_bps),
{
    let a = accrued as u128;
    let b = fee_bps as u128;
    assert(a * b <= 0xffff_ffff_ffff_ffffu128 * 0xffffu128) by (nonlinear_arith)
        requires
            a <= 0xffff_ffff_ffff_ffffu128,
            b <= 0xffffu128,
    ;
    (a * b) / BPS_DENOMINATOR
}

/// Collects the fees the position has accrued: reports both amounts and the
/// protocol's cut of each, and zeroes both counters in the same step. Moving
/// the tokens is left to whoever receives the audit record.
pub fn collect_fees(
    ctx: &CollectFees,
    position: &mut LiquidityPosition,
    config: &ProtocolConfig,
    clock: &Clock,
) -> (r: Result<(FeeCollection, AuditLog), XLiquidityEngineError>)
    ensures
        match r {
            Err(e) => {
                &&& collect_error(*old(position), ctx.owner) == Some(e)
                &&& *final(position) == *old(position)
            },
            Ok((c, log)) => {
                &&& collect_error(*old(position), ctx.owner) is None
                &&& *final(position) == collected_position(*old(position), clock.unix_timestamp)
                &&& final(position).total_fees_earned_a == 0
                &&& final(position).total_fees_earned_b == 0
                &&& c.collected_a == old(position).total_fees_earned_a
                &&& c.collected_b == old(position).total_fees_earned_b
                &&& c.protocol_fee_a == protocol_share(
                    old(position).total_fees_earned_a,
                    config.protocol_fee_bps,
                )
                &&& c.protocol_fee_b == protocol_share(
                    old(position).total_fees_earned_b,
                    config.protocol_fee_bps,
                )
                &&& is_audit_record(
                    log,
                    AuditEventType::FeesCollected,
                    Some(ctx.position),
                    old(position).owner,
                    AuditPayload::FeesCollected { amount_a: c.collected_a, amount_b: c.collected_b },
                    *clock,
                )
            },
        },
{
    if !position.owner.equals(&ctx.owner) || position.status != PositionStatus::Active {
        return Err(XLiquidityEngineError::PositionNotActive);
    }
    if position.total_fees_earned_a == 0 && position.total_fees_earned_b == 0 {
        return Err(XLiquidityEngineError::NoFeesToCollect);
    }
    let collected_a = position.total_fees_earned_a;
    let collected_b = position.total_fees_earned_b;
    let collection = FeeCollection {
        collected_a,
        collected_b,
        protocol_fee_a: protocol_fee(collected_a, config.protocol_fee_bps),
        protocol_fee_b: protocol_fee(collected_b, config.protocol_fee_bps),
    };
    position.total_fees_earned_a = 0;
    position.total_fees_earned_b = 0;
    position.updated_at = clock.unix_timestamp;
    let log = create_audit_log_internal(
        AuditEventType::FeesCollected,
        Some(ctx.position),
        position.owner,
        AuditPayload::FeesCollected { amount_a: collected_a, amount_b: collected_b },
        clock,
    );
    Ok((collection, log))
}

/// Collecting twice in a row, with nothing accrued in between, fails the
/// second time with `NoFeesToCollect`: no fee is counted twice.
pub proof fn lemma_collect_twice(p: LiquidityPosition, owner: Key, now: i64)
    requires
        collect_error(p, owner) is None,
    ensures
        collect_error(collected_position(p, now), owner)
            == Some(XLiquidityEngineError::NoFeesToCollect),
{
}

} // verus!
