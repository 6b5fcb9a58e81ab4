use vstd::prelude::*;
use crate::audit::{create_audit_log_internal, is_audit_record};
use crate::contexts::{ApproveRebalance, CreateRebalanceDecision, ExecuteRebalance};
use crate::error::XLiquidityEngineError;
use crate::key::{same_optional_key, Key};
use crate::risk::{assess_risk, risk_of, RiskLevel};
use crate::state::{AuditLog, AuditPayload, LiquidityPosition, ProtocolConfig, RebalanceDecision};
use crate::types::{AuditEventType, Clock, ExecutionStatus, PositionStatus, PriceRange};

verus! {

/// A decision with this risk, against a position with this value locked, must
/// wait for a human approval before it may execute.
pub open spec fn needs_human_approval(risk: RiskLevel, value_locked: u64, threshold: u64) -> bool {
    risk == RiskLevel::High || risk == RiskLevel::Critical || value_locked >= threshold
}

/// At least the position's minimum interval has passed since its last rebalance.
pub open spec fn interval_elapsed(position: LiquidityPosition, now: i64) -> bool {
    now - position.last_rebalance_timestamp >= position.min_rebalance_interval
}

/// The kind of the record that announces a new decision: a gated decision
/// announces that it waits for a human approval.
pub open spec fn decision_event(requires_human_approval: bool) -> AuditEventType {
    if requires_human_approval {
        AuditEventType::HumanApprovalRequired
    } else {
        AuditEventType::DecisionCreated
    }
}

/// Why a decision for `new_range` cannot be created now, if it cannot.
pub open spec fn decision_error(
    position: LiquidityPosition,
    new_range: PriceRange,
    now: i64,
) -> Option<XLiquidityEngineError> {
    if position.status != PositionStatus::Active {
        Some(XLiquidityEngineError::PositionNotActive)
    } else if !interval_elapsed(position, now) {
        Some(XLiquidityEngineError::RebalanceTooFrequent)
    } else if !new_range.wf() {
        Some(XLiquidityEngineError::InvalidPriceRange)
    } else {
        None
    }
}

/// Why the decision cannot be approved, if it cannot.
pub open spec fn approve_error(d: RebalanceDecision) -> Option<XLiquidityEngineError> {
    if !d.requires_human_approval {
        Some(XLiquidityEngineError::ApprovalNotRequired)
    } else if d.execution_status != ExecutionStatus::Pending {
        Some(XLiquidityEngineError::InvalidExecutionStatus)
    } else if d.human_approver is Some {
        Some(XLiquidityEngineError::AlreadyApproved)
    } else {
        None
    }
}

/// The decision once `approver` has approved it at time `now`.
pub open spec fn approved_decision(d: RebalanceDecision, approver: Key, now: i64) -> RebalanceDecision {
    RebalanceDecision { human_approver: Some(approver), approval_timestamp: Some(now), ..d }
}

/// Why the decision cannot be executed on the position, if it cannot; the
/// checks come in this order.
pub open spec fn execute_error(
    d: RebalanceDecision,
    position: LiquidityPosition,
    config: ProtocolConfig,
    caller_approver: Option<Key>,
    slippage_tolerance_bps: u16,
) -> Option<XLiquidityEngineError> {
    if d.execution_status != ExecutionStatus::Pending {
        Some(XLiquidityEngineError::InvalidExecutionStatus)
    } else if d.requires_human_approval && d.human_approver is None {
        Some(XLiquidityEngineError::HumanApprovalRequired)
    } else if d.requires_human_approval && caller_approver is Some && caller_approver
        != d.human_approver {
        Some(XLiquidityEngineError::InvalidApprover)
    } else if slippage_tolerance_bps > 2 * config.default_slippage_tolerance_bps {
        Some(XLiquidityEngineError::SlippageTooHigh)
    } else if !d.spec_new_range().wf() {
        Some(XLiquidityEngineError::InvalidPriceRange)
    } else if position.spec_range() != d.base_range {
        Some(XLiquidityEngineError::StaleDecision)
    } else if position.rebalance_count == u32::MAX {
        Some(XLiquidityEngineError::ArithmeticOverflow)
    } else {
        None
    }
}

/// The position after the decision was applied to it.
pub open spec fn rebalanced_position(
    p: LiquidityPosition,
    d: RebalanceDecision,
    clock: Clock,
) -> LiquidityPosition {
    LiquidityPosition {
        current_tick_lower: d.new_tick_lower,
        current_tick_upper: d.new_tick_upper,
        current_price_lower: d.new_price_lower,
        current_price_upper: d.new_price_upper,
        last_rebalance_slot: clock.slot,
        last_rebalance_timestamp: clock.unix_timestamp,
        rebalance_count: (p.rebalance_count + 1) as u32,
        updated_at: clock.unix_timestamp,
        ..p
    }
}

/// The decision after it was executed.
pub open spec fn executed_decision(d: RebalanceDecision, clock: Clock) -> RebalanceDecision {
    RebalanceDecision {
        execution_status: ExecutionStatus::Executed,
        executed_at: Some(clock.unix_timestamp),
        ..d
    }
}

/// Proposes moving `position` to a new range. The decision starts `Pending`;
/// whether it needs a human approval is decided here, once. Every decision
/// comes with the audit record of its creation, which for a gated decision
/// announces that an approval is required.
pub fn create_rebalance_decision(
    ctx: &CreateRebalanceDecision,
    position: &LiquidityPosition,
    config: &ProtocolConfig,
    new_tick_lower: i32,
    new_tick_upper: i32,
    new_price_lower: u128,
    new_price_upper: u128,
    ai_model_version: String,
    ai_model_hash: [u8; 32],
    prediction_confidence: u16,
    market_sentiment_score: i16,
    volatility_metric: u16,
    whale_activity_score: u16,
    decision_reason: String,
    clock: &Clock,
) -> (r: Result<(RebalanceDecision, AuditLog), XLiquidityEngineError>)
    ensures
        ({
            let new_range = PriceRange {
                tick_lower: new_tick_lower,
                tick_upper: new_tick_upper,
                price_lower: new_price_lower,
                price_upper: new_price_upper,
            };
            match r {
                Err(e) => decision_error(*position, new_range, clock.unix_timestamp) == Some(e),
                Ok((d, log)) => {
                    &&& decision_error(*position, new_range, clock.unix_timestamp) is None
                    &&& d.position == ctx.position
                    &&& d.spec_new_range() == new_range
                    &&& d.base_range == position.spec_range()
                    &&& d.ai_model_version == ai_model_version
                    &&& d.ai_model_hash == ai_model_hash
                    &&& d.prediction_confidence == prediction_confidence
                    &&& d.market_sentiment_score == market_sentiment_score
                    &&& d.volatility_metric == volatility_metric
                    &&& d.whale_activity_score == whale_activity_score
                    &&& d.on_chain_indicators@.len() == 0
                    &&& d.decision_reason == decision_reason
                    &&& d.risk_assessment == risk_of(
                        prediction_confidence as int,
                        market_sentiment_score as int,
                        volatility_metric as int,
                    )
                    &&& d.requires_human_approval == needs_human_approval(
                        d.risk_assessment,
                        position.total_value_locked,
                        config.require_human_approval_threshold,
                    )
                    &&& position.total_value_locked >= config.require_human_approval_threshold
                        ==> d.requires_human_approval
                    &&& d.execution_status == ExecutionStatus::Pending
                    &&& d.execution_tx_signature is None
                    &&& d.execution_slippage is None
                    &&& d.human_approver is None
                    &&& d.approval_timestamp is None
                    &&& d.created_at == clock.unix_timestamp
                    &&& d.executed_at is None
                    &&& is_audit_record(
                        log,
                        decision_event(d.requires_human_approval),
                        Some(ctx.position),
                        ctx.payer,
                        AuditPayload::Empty,
                        *clock,
                    )
                },
            }
        }),
{
    if position.status != PositionStatus::Active {
        return Err(XLiquidityEngineError::PositionNotActive);
    }
    let elapsed: i128 = clock.unix_timestamp as i128 - position.last_rebalance_timestamp as i128;
    if elapsed < position.min_rebalance_interval as i128 {
        return Err(XLiquidityEngineError::RebalanceTooFrequent);
    }
    let new_range = PriceRange {
        tick_lower: new_tick_lower,
        tick_upper: new_tick_upper,
        price_lower: new_price_lower,
        price_upper: new_price_upper,
    };
    if !new_range.is_ordered() {
        return Err(XLiquidityEngineError::InvalidPriceRange);
    }
    let risk_assessment = assess_risk(
        prediction_confidence,
        market_sentiment_score,
        volatility_metric,
    );
    let requires_human_approval = risk_assessment == RiskLevel::Critical || risk_assessment
        == RiskLevel::High || position.total_value_locked >= config.require_human_approval_threshold;
    let decision = RebalanceDecision {
        position: ctx.position,
        new_tick_lower,
        new_tick_upper,
        new_price_lower,
        new_price_upper,
        base_range: position.range(),
        ai_model_version,
        ai_model_hash,
        prediction_confidence,
        market_sentiment_score,
        volatility_metric,
        whale_activity_score,
        on_chain_indicators: Vec::new(),
        decision_reason,
        risk_assessment,
        execution_status: ExecutionStatus::Pending,
        execution_tx_signature: None,
        execution_slippage: None,
        requires_human_approval,
        human_approver: None,
        approval_timestamp: None,
        created_at: clock.unix_timestamp,
        executed_at: None,
    };
    let event_type = if requires_human_approval {
        AuditEventType::HumanApprovalRequired
    } else {
        AuditEventType::DecisionCreated
    };
    let log = create_audit_log_internal(
        event_type,
        Some(ctx.position),
        ctx.payer,
        AuditPayload::Empty,
        clock,
    );
    Ok((decision, log))
}

/// Records `ctx.approver` as the human who approved the decision, at the
/// clock's time. An approval is recorded at most once, and only on a pending
/// decision that needs one; nothing else of the decision changes.
pub fn approve_rebalance(
    ctx: &ApproveRebalance,
    decision: &mut RebalanceDecision,
    clock: &Clock,
) -> (r: Result<AuditLog, XLiquidityEngineError>)
    ensures
        match r {
            Err(e) => {
                &&& approve_error(*old(decision)) == Some(e)
                &&& *final(decision) == *old(decision)
            },
            Ok(log) => {
                &&& approve_error(*old(decision)) is None
                &&& *final(decision) == approved_decision(
                    *old(decision),
                    ctx.approver,
                    clock.unix_timestamp,
                )
                &&& is_audit_record(
                    log,
                    AuditEventType::HumanApprovalGranted,
                    Some(old(decision).position),
                    ctx.approver,
                    AuditPayload::Empty,
                    *clock,
                )
            },
        },
{
    if !decision.requires_human_approval {
        return Err(XLiquidityEngineError::ApprovalNotRequired);
    }
    if decision.execution_status != ExecutionStatus::Pending {
        return Err(XLiquidityEngineError::InvalidExecutionStatus);
    }
    if decision.human_approver.is_some() {
        return Err(XLiquidityEngineError::AlreadyApproved);
    }
    decision.human_approver = Some(ctx.approver);
    decision.approval_timestamp = Some(clock.unix_timestamp);
    Ok(
        create_audit_log_internal(
            AuditEventType::HumanApprovalGranted,
            Some(decision.position),
            ctx.approver,
            AuditPayload::Empty,
            clock,
        ),
    )
}

/// Applies a pending decision to its position: the position takes the new
/// range and its rebalance bookkeeping advances, and the decision becomes
/// `Executed`. This is the only operation that moves a position's range.
pub fn execute_rebalance(
    ctx: &ExecuteRebalance,
    decision: &mut RebalanceDecision,
    position: &mut LiquidityPosition,
    config: &ProtocolConfig,
    slippage_tolerance_bps: u16,
    clock: &Clock,
) -> (r: Result<AuditLog, XLiquidityEngineError>)
    ensures
        match r {
            Err(e) => {
                &&& execute_error(
                    *old(decision),
                    *old(position),
                    *config,
                    ctx.approver,
                    slippage_tolerance_bps,
                ) == Some(e)
                &&& *final(decision) == *old(decision)
                &&& *final(position) == *old(position)
            },
            Ok(log) => {
                &&& execute_error(
                    *old(decision),
                    *old(position),
                    *config,
                    ctx.approver,
                    slippage_tolerance_bps,
                ) is None
                &&& *final(position) == rebalanced_position(*old(position), *old(decision), *clock)
                &&& *final(decision) == executed_decision(*old(decision), *clock)
                &&& final(position).wf()
                &&& is_audit_record(
                    log,
                    AuditEventType::Rebalanced,
                    Some(ctx.position),
                    old(position).owner,
                    AuditPayload::Rebalanced {
                        old_range: old(position).spec_range(),
                        new_range: old(decision).spec_new_range(),
                    },
                    *clock,
                )
            },
        },
        final(position).spec_range() != old(position).spec_range() ==> {
            &&& old(decision).execution_status == ExecutionStatus::Pending
            &&& final(decision).execution_status == ExecutionStatus::Executed
        },
{
    if decision.execution_status != ExecutionStatus::Pending {
        return Err(XLiquidityEngineError::InvalidExecutionStatus);
    }
    if decision.requires_human_approval {
        if decision.human_approver.is_none() {
            return Err(XLiquidityEngineError::HumanApprovalRequired);
        }
        if let Some(approver) = &ctx.approver {
            if !same_optional_key(&decision.human_approver, approver) {
                return Err(XLiquidityEngineError::InvalidApprover);
            }
        }
    }
    if slippage_tolerance_bps as u32 > 2 * (config.default_slippage_tolerance_bps as u32) {
        return Err(XLiquidityEngineError::SlippageTooHigh);
    }
    let new_range = decision.new_range();
    if !new_range.is_ordered() {
        return Err(XLiquidityEngineError::InvalidPriceRange);
    }
    let old_range = position.range();
    if old_range != decision.base_range {
        return Err(XLiquidityEngineError::StaleDecision);
    }
    if position.rebalance_count == u32::MAX {
        return Err(XLiquidityEngineError::ArithmeticOverflow);
    }
    position.current_tick_lower = new_range.tick_lower;
    position.current_tick_upper = new_range.tick_upper;
    position.current_price_lower = new_range.price_lower;
    position.current_price_upper = new_range.price_upper;
    position.last_rebalance_slot = clock.slot;
    position.last_rebalance_timestamp = clock.unix_timestamp;
    position.rebalance_count = position.rebalance_count + 1;
    position.updated_at = clock.unix_timestamp;
    decision.execution_status = ExecutionStatus::Executed;
    decision.executed_at = Some(clock.unix_timestamp);
    Ok(
        create_audit_log_internal(
            AuditEventType::Rebalanced,
            Some(ctx.position),
            position.owner,
            AuditPayload::Rebalanced { old_range, new_range },
            clock,
        ),
    )
}

/// An approval is recorded at most once: once a decision has been approved,
/// approving it again fails. A decision that does not need an approval
/// cannot be approved at all.
pub proof fn lemma_approve_twice(d: RebalanceDecision, approver: Key, now: i64)
    ensures
        approve_error(d) is None ==> approve_error(approved_decision(d, approver, now))
            == Some(XLiquidityEngineError::AlreadyApproved),
        !d.requires_human_approval ==> approve_error(d) == Some(
            XLiquidityEngineError::ApprovalNotRequired,
        ),
{
}

} // verus!
