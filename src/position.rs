use vstd::prelude::*;
use crate::audit::{create_audit_log_internal, is_audit_record};
use crate::contexts::CreateLiquidityPosition;
use crate::error::XLiquidityEngineError;
use crate::key::Key;
use crate::state::{AuditLog, AuditPayload, LiquidityPosition, ProtocolConfig};
use crate::types::{AuditEventType, Clock, DexType, PositionStatus, PriceRange};

verus! {

/// Why a position with this range and these caps cannot be opened under
/// `config`, if it cannot.
pub open spec fn position_error(
    config: ProtocolConfig,
    range: PriceRange,
    max_position_size: u64,
    max_single_trade: u64,
) -> Option<XLiquidityEngineError> {
    if !range.wf() {
        Some(XLiquidityEngineError::InvalidPriceRange)
    } else if max_position_size > config.max_position_size {
        Some(XLiquidityEngineError::ExceedsMaxPositionSize)
    } else if max_single_trade > config.max_single_trade_size {
        Some(XLiquidityEngineError::ExceedsMaxTradeSize)
    } else {
        None
    }
}

/// `p` is the freshly opened position: active, on the given range and caps,
/// never rebalanced, with nothing accrued.
pub open spec fn opened_position(
    p: LiquidityPosition,
    ctx: CreateLiquidityPosition,
    config: ProtocolConfig,
    token_a: Key,
    token_b: Key,
    range: PriceRange,
    max_position_size: u64,
    max_single_trade: u64,
    clock: Clock,
) -> bool {
    &&& p.owner == ctx.owner
    &&& p.token_a == token_a
    &&& p.token_b == token_b
    &&& p.token_a_vault == ctx.token_a_vault
    &&& p.token_b_vault == ctx.token_b_vault
    &&& p.dex == DexType::Raydium
    &&& p.pool_address == ctx.pool
    &&& p.position_nft is None
    &&& p.spec_range() == range
    &&& p.liquidity_amount == 0
    &&& p.total_fees_earned_a == 0
    &&& p.total_fees_earned_b == 0
    &&& p.total_value_locked == 0
    &&& p.last_rebalance_slot == 0
    &&& p.last_rebalance_timestamp == 0
    &&& p.rebalance_count == 0
    &&& p.total_return_percentage == 0
    &&& p.apy_estimate == 0
    &&& p.status == PositionStatus::Active
    &&& p.auto_rebalance_enabled
    &&& p.min_rebalance_interval == config.min_rebalance_interval
    &&& p.max_position_size == max_position_size
    &&& p.max_single_trade == max_single_trade
    &&& p.allowed_dex_programs@ == seq![ctx.pool]
    &&& p.created_at == clock.unix_timestamp
    &&& p.updated_at == clock.unix_timestamp
}

/// Opens a position on a well-ordered range, with caps no larger than the
/// protocol's, and hands back the record of its creation.
pub fn create_liquidity_position(
    ctx: &CreateLiquidityPosition,
    config: &ProtocolConfig,
    token_a: Key,
    token_b: Key,
    tick_lower: i32,
    tick_upper: i32,
    price_lower: u128,
    price_upper: u128,
    max_position_size: u64,
    max_single_trade: u64,
    clock: &Clock,
) -> (r: Result<(LiquidityPosition, AuditLog), XLiquidityEngineError>)
    ensures
        ({
            let range = PriceRange { tick_lower, tick_upper, price_lower, price_upper };
            match r {
                Err(e) => position_error(*config, range, max_position_size, max_single_trade)
                    == Some(e),
                Ok((p, log)) => {
                    &&& position_error(*config, range, max_position_size, max_single_trade) is None
                    &&& opened_position(
                        p,
                        *ctx,
                        *config,
                        token_a,
                        token_b,
                        range,
                        max_position_size,
                        max_single_trade,
                        *clock,
                    )
                    &&& p.wf()
                    &&& is_audit_record(
                    log,
                        AuditEventType::PositionCreated,
                        Some(ctx.position),
                        ctx.owner,
                        AuditPayload::Empty,
                        *clock,
                    )
                },
            }
        }),
{
    let range = PriceRange { tick_lower, tick_upper, price_lower, price_upper };
    if !range.is_ordered() {
        return Err(XLiquidityEngineError::InvalidPriceRange);
    }
    if max_position_size > config.max_position_size {
        return Err(XLiquidityEngineError::ExceedsMaxPositionSize);
    }
    if max_single_trade > config.max_single_trade_size {
        return Err(XLiquidityEngineError::ExceedsMaxTradeSize);
    }
    let mut allowed_dex_programs: Vec<Key> = Vec::new();
    allowed_dex_programs.push(ctx.pool);
    let position = LiquidityPosition {
        owner: ctx.owner,
        token_a,
        token_b,
        token_a_vault: ctx.token_a_vault,
        token_b_vault: ctx.token_b_vault,
        dex: DexType::Raydium,
        pool_address: ctx.pool,
        position_nft: None,
        current_tick_lower: tick_lower,
        current_tick_upper: tick_upper,
        current_price_lower: price_lower,
        current_price_upper: price_upper,
        liquidity_amount: 0,
        total_fees_earned_a: 0,
        total_fees_earned_b: 0,
        total_value_locked: 0,
        last_rebalance_slot: 0,
        last_rebalance_timestamp: 0,
        rebalance_count: 0,
        total_return_percentage: 0,
        apy_estimate: 0,
        status: PositionStatus::Active,
        auto_rebalance_enabled: true,
        min_rebalance_interval: config.min_rebalance_interval,
        max_position_size,
        max_single_trade,
        allowed_dex_programs,
        created_at: clock.unix_timestamp,
        updated_at: clock.unix_timestamp,
    };
    let log = create_audit_log_internal(
        AuditEventType::PositionCreated,
        Some(ctx.position),
        ctx.owner,
        AuditPayload::Empty,
        clock,
    );
    Ok((position, log))
}

} // verus!
