use x_liquidity_engine::audit::is_untampered;
use x_liquidity_engine::config::initialize_protocol_config;
use x_liquidity_engine::contexts::{
    ApproveRebalance, CollectFees, CreateLiquidityPosition, CreateRebalanceDecision,
    ExecuteRebalance, InitializeProtocolConfig, VerifyX402Payment,
};
use x_liquidity_engine::decision::{approve_rebalance, create_rebalance_decision, execute_rebalance};
use x_liquidity_engine::error::XLiquidityEngineError;
use x_liquidity_engine::fees::{collect_fees, protocol_fee};
use x_liquidity_engine::key::Key;
use x_liquidity_engine::payment::verify_x402_payment;
use x_liquidity_engine::position::create_liquidity_position;
use x_liquidity_engine::risk::{assess_risk, RiskLevel};
use x_liquidity_engine::state::{
    AuditPayload, LiquidityPosition, ProtocolConfig, RebalanceDecision,
};
use x_liquidity_engine::types::{
    AuditEventType, Clock, ExecutionStatus, PaymentCurrency, PaymentStatus, PositionStatus,
    PriceRange,
};

const T0: i64 = 1_700_000_000;

fn key(b: u8) -> Key {
    Key::new([b; 32])
}

fn clock(t: i64) -> Clock {
    Clock { unix_timestamp: t, slot: t as u64 / 2 }
}

fn config() -> ProtocolConfig {
    let ctx = InitializeProtocolConfig { authority: key(1), fee_recipient: key(2) };
    initialize_protocol_config(&ctx, 2000, 1000, 1_000_000, &clock(T0))
}

fn position_ctx() -> CreateLiquidityPosition {
    CreateLiquidityPosition {
        position: key(10),
        owner: key(11),
        token_a_vault: key(12),
        token_b_vault: key(13),
        pool: key(14),
    }
}

fn position(config: &ProtocolConfig) -> LiquidityPosition {
    let (p, _) = create_liquidity_position(
        &position_ctx(),
        config,
        key(20),
        key(21),
        -100,
        100,
        1_000,
        2_000,
        1_000,
        100,
        &clock(T0),
    )
    .unwrap();
    p
}

fn propose(
    config: &ProtocolConfig,
    p: &LiquidityPosition,
    confidence: u16,
    sentiment: i16,
    volatility: u16,
    now: i64,
) -> Result<RebalanceDecision, XLiquidityEngineError> {
    let ctx = CreateRebalanceDecision { position: key(10), payer: key(30) };
    create_rebalance_decision(
        &ctx,
        p,
        config,
        -50,
        150,
        1_200,
        2_400,
        "v1.0.0".to_string(),
        [7u8; 32],
        confidence,
        sentiment,
        volatility,
        0,
        "tighten range".to_string(),
        &clock(now),
    )
    .map(|(d, _)| d)
}

fn exec_ctx(approver: Option<Key>) -> ExecuteRebalance {
    ExecuteRebalance { position: key(10), approver }
}

#[test]
fn risk_confidence_alone_is_critical() {
    assert_eq!(assess_risk(4000, 0, 2000), RiskLevel::Critical);
    assert_eq!(assess_risk(4000, 10000, 0), RiskLevel::Critical);
}

#[test]
fn risk_thresholds_in_order() {
    assert_eq!(assess_risk(9000, 0, 8001), RiskLevel::Critical);
    assert_eq!(assess_risk(6999, 0, 0), RiskLevel::High);
    assert_eq!(assess_risk(9000, 0, 6001), RiskLevel::High);
    assert_eq!(assess_risk(9000, -5001, 0), RiskLevel::High);
    assert_eq!(assess_risk(9000, -5000, 0), RiskLevel::Low);
    assert_eq!(assess_risk(8499, 0, 0), RiskLevel::Medium);
    assert_eq!(assess_risk(9000, 0, 4001), RiskLevel::Medium);
    assert_eq!(assess_risk(8500, 0, 4000), RiskLevel::Low);
    assert_eq!(assess_risk(5000, 0, 8000), RiskLevel::High);
}

#[test]
fn risk_is_deterministic() {
    for c in [0u16, 4999, 5000, 7000, 8500, 10000] {
        for v in [0u16, 4000, 6000, 8000, 10000] {
            assert_eq!(assess_risk(c, -100, v), assess_risk(c, -100, v));
        }
    }
}

#[test]
fn config_defaults() {
    let c = config();
    assert_eq!(c.authority, key(1));
    assert_eq!(c.fee_recipient, key(2));
    assert_eq!(c.protocol_fee_bps, 1000);
    assert_eq!(c.min_rebalance_interval, 3600);
    assert_eq!(c.default_slippage_tolerance_bps, 50);
    assert_eq!(c.require_human_approval_threshold, 500_000_000_000);
    assert_eq!(c.x402_api_base_url, "https://api.x-liquidity-engine.com");
    assert_eq!(c.default_ai_model_version, "v1.0.0");
    assert!(c.x402_facilitator.is_none());
}

#[test]
fn position_creation_and_errors() {
    let c = config();
    let (p, log) = create_liquidity_position(
        &position_ctx(), &c, key(20), key(21), -100, 100, 1_000, 2_000, 1_000, 100, &clock(T0),
    )
    .unwrap();
    assert_eq!(p.status, PositionStatus::Active);
    assert_eq!(p.current_tick_lower, -100);
    assert_eq!(p.current_price_upper, 2_000);
    assert_eq!(p.allowed_dex_programs, vec![key(14)]);
    assert_eq!(p.min_rebalance_interval, 3600);
    assert_eq!(log.event_type, AuditEventType::PositionCreated);
    assert_eq!(log.user, key(11));

    let err = |tl: i32, tu: i32, pl: u128, pu: u128, mp: u64, mt: u64| {
        create_liquidity_position(&position_ctx(), &c, key(20), key(21), tl, tu, pl, pu, mp, mt, &clock(T0))
            .err()
    };
    assert_eq!(err(100, 100, 1, 2, 1, 1), Some(XLiquidityEngineError::InvalidPriceRange));
    assert_eq!(err(1, 2, 2, 2, 1, 1), Some(XLiquidityEngineError::InvalidPriceRange));
    assert_eq!(err(1, 2, 1, 2, 1_000_000_000_001, 1), Some(XLiquidityEngineError::ExceedsMaxPositionSize));
    assert_eq!(err(1, 2, 1, 2, 1, 100_000_000_001), Some(XLiquidityEngineError::ExceedsMaxTradeSize));
    assert_eq!(err(1, 2, 1, 2, 1_000_000_000_000, 100_000_000_000), None);
}

#[test]
fn rebalance_interval_scenario() {
    let c = config();
    let mut p = position(&c);
    p.last_rebalance_timestamp = T0;
    assert_eq!(p.min_rebalance_interval, 3600);
    assert_eq!(
        propose(&c, &p, 9000, 0, 0, T0 + 1800).err(),
        Some(XLiquidityEngineError::RebalanceTooFrequent)
    );
    assert!(propose(&c, &p, 9000, 0, 0, T0 + 3601).is_ok());
    assert!(propose(&c, &p, 9000, 0, 0, T0 + 3600).is_ok());
}

#[test]
fn decision_errors() {
    let c = config();
    let mut p = position(&c);
    let ctx = CreateRebalanceDecision { position: key(10), payer: key(30) };
    let bad = create_rebalance_decision(
        &ctx, &p, &c, 10, 10, 1, 2, String::new(), [0u8; 32], 9000, 0, 0, 0, String::new(), &clock(T0),
    );
    assert_eq!(bad.err(), Some(XLiquidityEngineError::InvalidPriceRange));
    p.status = PositionStatus::Paused;
    assert_eq!(propose(&c, &p, 9000, 0, 0, T0).err(), Some(XLiquidityEngineError::PositionNotActive));
}

#[test]
fn decision_fields_and_gating() {
    let c = config();
    let p = position(&c);
    let d = propose(&c, &p, 9000, 0, 0, T0).unwrap();
    assert_eq!(d.risk_assessment, RiskLevel::Low);
    assert!(!d.requires_human_approval);
    assert_eq!(d.execution_status, ExecutionStatus::Pending);
    assert_eq!(d.new_tick_lower, -50);
    assert_eq!(d.new_price_upper, 2_400);
    assert_eq!(d.base_range, p.range());
    assert_eq!(d.decision_reason, "tighten range");
    assert_eq!(d.created_at, T0);

    let high = propose(&c, &p, 6000, 0, 0, T0).unwrap();
    assert_eq!(high.risk_assessment, RiskLevel::High);
    assert!(high.requires_human_approval);
}

#[test]
fn value_threshold_forces_approval() {
    let c = config();
    let mut p = position(&c);
    p.total_value_locked = c.require_human_approval_threshold;
    let d = propose(&c, &p, 9000, 0, 0, T0).unwrap();
    assert_eq!(d.risk_assessment, RiskLevel::Low);
    assert!(d.requires_human_approval);
    p.total_value_locked = c.require_human_approval_threshold - 1;
    assert!(!propose(&c, &p, 9000, 0, 0, T0).unwrap().requires_human_approval);

    let ctx = CreateRebalanceDecision { position: key(10), payer: key(30) };
    p.total_value_locked = u64::MAX;
    let (_, log) = create_rebalance_decision(
        &ctx, &p, &c, 1, 2, 1, 2, String::new(), [0u8; 32], 9000, 0, 0, 0, String::new(), &clock(T0),
    )
    .unwrap();
    assert_eq!(log.event_type, AuditEventType::HumanApprovalRequired);
    assert_eq!(log.position, Some(key(10)));
    assert_eq!(log.user, key(30));
    assert!(is_untampered(&log));
}

#[test]
fn ungated_decision_is_recorded() {
    let c = config();
    let p = position(&c);
    let ctx = CreateRebalanceDecision { position: key(10), payer: key(30) };
    let (d, log) = create_rebalance_decision(
        &ctx, &p, &c, 1, 2, 1, 2, String::new(), [0u8; 32], 9000, 0, 0, 0, String::new(), &clock(T0),
    )
    .unwrap();
    assert!(!d.requires_human_approval);
    assert_eq!(log.event_type, AuditEventType::DecisionCreated);
    assert_eq!(log.position, Some(key(10)));
    assert_eq!(log.user, key(30));
    assert_eq!(log.event_data, AuditPayload::Empty);
    assert_eq!(log.created_at, T0);
    assert!(is_untampered(&log));
}

#[test]
fn approve_twice_fails() {
    let c = config();
    let p = position(&c);
    let mut d = propose(&c, &p, 6000, 0, 0, T0).unwrap();
    let ctx = ApproveRebalance { approver: key(40) };
    let log = approve_rebalance(&ctx, &mut d, &clock(T0 + 5)).unwrap();
    assert_eq!(log.event_type, AuditEventType::HumanApprovalGranted);
    assert_eq!(d.human_approver, Some(key(40)));
    assert_eq!(d.approval_timestamp, Some(T0 + 5));
    let other = ApproveRebalance { approver: key(41) };
    assert_eq!(
        approve_rebalance(&other, &mut d, &clock(T0 + 6)).err(),
        Some(XLiquidityEngineError::AlreadyApproved)
    );
    assert_eq!(d.human_approver, Some(key(40)));
    assert_eq!(d.approval_timestamp, Some(T0 + 5));
}

#[test]
fn approve_not_required_fails() {
    let c = config();
    let p = position(&c);
    let mut d = propose(&c, &p, 9000, 0, 0, T0).unwrap();
    let ctx = ApproveRebalance { approver: key(40) };
    assert_eq!(
        approve_rebalance(&ctx, &mut d, &clock(T0)).err(),
        Some(XLiquidityEngineError::ApprovalNotRequired)
    );
    assert_eq!(d.human_approver, None);

    let mut gated = propose(&c, &p, 6000, 0, 0, T0).unwrap();
    gated.execution_status = ExecutionStatus::Rejected;
    assert_eq!(
        approve_rebalance(&ctx, &mut gated, &clock(T0)).err(),
        Some(XLiquidityEngineError::InvalidExecutionStatus)
    );
}

#[test]
fn slippage_boundary() {
    let c = config();
    let mut p = position(&c);
    let mut d = propose(&c, &p, 9000, 0, 0, T0).unwrap();
    let limit = 2 * c.default_slippage_tolerance_bps;
    assert_eq!(
        execute_rebalance(&exec_ctx(None), &mut d, &mut p, &c, limit + 1, &clock(T0 + 10)).err(),
        Some(XLiquidityEngineError::SlippageTooHigh)
    );
    assert_eq!(d.execution_status, ExecutionStatus::Pending);
    assert_eq!(p.current_tick_lower, -100);
    let log = execute_rebalance(&exec_ctx(None), &mut d, &mut p, &c, limit, &clock(T0 + 10)).unwrap();
    assert_eq!(d.execution_status, ExecutionStatus::Executed);
    assert_eq!(d.executed_at, Some(T0 + 10));
    assert_eq!(p.current_tick_lower, -50);
    assert_eq!(p.current_tick_upper, 150);
    assert_eq!(p.current_price_lower, 1_200);
    assert_eq!(p.current_price_upper, 2_400);
    assert_eq!(p.rebalance_count, 1);
    assert_eq!(p.last_rebalance_timestamp, T0 + 10);
    assert_eq!(p.last_rebalance_slot, (T0 + 10) as u64 / 2);
    assert_eq!(log.event_type, AuditEventType::Rebalanced);
    assert_eq!(log.user, key(11));
    assert_eq!(
        log.event_data,
        AuditPayload::Rebalanced {
            old_range: PriceRange { tick_lower: -100, tick_upper: 100, price_lower: 1_000, price_upper: 2_000 },
            new_range: PriceRange { tick_lower: -50, tick_upper: 150, price_lower: 1_200, price_upper: 2_400 },
        }
    );
    assert_eq!(log.event_hash[0], 0x18);
    assert!(is_untampered(&log));
}

#[test]
fn executed_decision_cannot_run_again() {
    let c = config();
    let mut p = position(&c);
    let mut d = propose(&c, &p, 9000, 0, 0, T0).unwrap();
    execute_rebalance(&exec_ctx(None), &mut d, &mut p, &c, 0, &clock(T0)).unwrap();
    let before = p.range();
    assert_eq!(
        execute_rebalance(&exec_ctx(None), &mut d, &mut p, &c, 0, &clock(T0 + 1)).err(),
        Some(XLiquidityEngineError::InvalidExecutionStatus)
    );
    assert_eq!(p.range(), before);
    assert_eq!(p.rebalance_count, 1);
}

#[test]
fn gated_execution_needs_matching_approver() {
    let c = config();
    let mut p = position(&c);
    let mut d = propose(&c, &p, 6000, 0, 0, T0).unwrap();
    assert_eq!(
        execute_rebalance(&exec_ctx(Some(key(40))), &mut d, &mut p, &c, 0, &clock(T0)).err(),
        Some(XLiquidityEngineError::HumanApprovalRequired)
    );
    approve_rebalance(&ApproveRebalance { approver: key(40) }, &mut d, &clock(T0)).unwrap();
    assert_eq!(
        execute_rebalance(&exec_ctx(Some(key(41))), &mut d, &mut p, &c, 0, &clock(T0)).err(),
        Some(XLiquidityEngineError::InvalidApprover)
    );
    assert_eq!(p.current_tick_lower, -100);
    execute_rebalance(&exec_ctx(Some(key(40))), &mut d, &mut p, &c, 0, &clock(T0)).unwrap();
    assert_eq!(p.current_tick_lower, -50);
}

#[test]
fn stale_decision_is_refused() {
    let c = config();
    let mut p = position(&c);
    let mut first = propose(&c, &p, 9000, 0, 0, T0).unwrap();
    let mut second = propose(&c, &p, 9000, 0, 0, T0).unwrap();
    second.new_tick_lower = -70;
    execute_rebalance(&exec_ctx(None), &mut first, &mut p, &c, 0, &clock(T0)).unwrap();
    assert_eq!(
        execute_rebalance(&exec_ctx(None), &mut second, &mut p, &c, 0, &clock(T0)).err(),
        Some(XLiquidityEngineError::StaleDecision)
    );
    assert_eq!(second.execution_status, ExecutionStatus::Pending);
    assert_eq!(p.current_tick_lower, -50);
}

#[test]
fn execution_refuses_disordered_range_and_counter_overflow() {
    let c = config();
    let mut p = position(&c);
    let mut d = propose(&c, &p, 9000, 0, 0, T0).unwrap();
    d.new_price_lower = d.new_price_upper;
    assert_eq!(
        execute_rebalance(&exec_ctx(None), &mut d, &mut p, &c, 0, &clock(T0)).err(),
        Some(XLiquidityEngineError::InvalidPriceRange)
    );
    let mut d = propose(&c, &p, 9000, 0, 0, T0).unwrap();
    p.rebalance_count = u32::MAX;
    assert_eq!(
        execute_rebalance(&exec_ctx(None), &mut d, &mut p, &c, 0, &clock(T0)).err(),
        Some(XLiquidityEngineError::ArithmeticOverflow)
    );
    assert_eq!(p.rebalance_count, u32::MAX);
    assert_eq!(p.current_tick_lower, -100);
}

#[test]
fn collect_round_trip_and_twice() {
    let c = config();
    let mut p = position(&c);
    p.total_fees_earned_a = 12_345;
    p.total_fees_earned_b = 99;
    let ctx = CollectFees { position: key(10), owner: key(11) };
    let (got, log) = collect_fees(&ctx, &mut p, &c, &clock(T0 + 1)).unwrap();
    assert_eq!(got.collected_a, 12_345);
    assert_eq!(got.collected_b, 99);
    assert_eq!(got.protocol_fee_a, 1_234);
    assert_eq!(got.protocol_fee_b, 9);
    assert_eq!(p.total_fees_earned_a, 0);
    assert_eq!(p.total_fees_earned_b, 0);
    assert_eq!(log.event_type, AuditEventType::FeesCollected);
    assert_eq!(log.event_data, AuditPayload::FeesCollected { amount_a: 12_345, amount_b: 99 });
    assert_eq!(
        collect_fees(&ctx, &mut p, &c, &clock(T0 + 2)).err(),
        Some(XLiquidityEngineError::NoFeesToCollect)
    );
    assert_eq!(p.updated_at, T0 + 1);
}

#[test]
fn collect_needs_owner_and_active_position() {
    let c = config();
    let mut p = position(&c);
    p.total_fees_earned_b = 5;
    let stranger = CollectFees { position: key(10), owner: key(99) };
    assert_eq!(
        collect_fees(&stranger, &mut p, &c, &clock(T0)).err(),
        Some(XLiquidityEngineError::PositionNotActive)
    );
    p.status = PositionStatus::Closed;
    let owner = CollectFees { position: key(10), owner: key(11) };
    assert_eq!(
        collect_fees(&owner, &mut p, &c, &clock(T0)).err(),
        Some(XLiquidityEngineError::PositionNotActive)
    );
    assert_eq!(p.total_fees_earned_b, 5);
}

#[test]
fn protocol_fee_rounds_down() {
    assert_eq!(protocol_fee(9_999, 1), 0);
    assert_eq!(protocol_fee(10_000, 1), 1);
    assert_eq!(protocol_fee(u64::MAX, u16::MAX), (u64::MAX as u128) * 65_535 / 10_000);
    assert_eq!(protocol_fee(0, 5000), 0);
}

fn payment_config() -> ProtocolConfig {
    let mut c = config();
    c.x402_facilitator = Some(key(50));
    c
}

fn pay(c: &ProtocolConfig, facilitator: Key, amount: u64, now: i64) -> Result<x_liquidity_engine::state::X402Payment, XLiquidityEngineError> {
    let ctx = VerifyX402Payment { payer: key(60), payer_wallet: key(61), facilitator };
    verify_x402_payment(
        &ctx, c, [9u8; 32], amount, PaymentCurrency::USDC, "/v1/predict".to_string(), "v1".to_string(), &clock(now),
    )
    .map(|(p, _)| p)
}

#[test]
fn payment_minimum_boundary() {
    let c = payment_config();
    assert_eq!(
        pay(&c, key(50), c.x402_min_payment - 1, T0).err(),
        Some(XLiquidityEngineError::PaymentTooSmall)
    );
    let p = pay(&c, key(50), c.x402_min_payment, T0).unwrap();
    assert_eq!(p.payment_status, PaymentStatus::Verified);
    assert_eq!(p.verified_at, Some(T0));
    assert_eq!(p.access_expires_at, Some(T0 + 3600));
    assert!(p.access_granted);
    assert_eq!(p.amount, c.x402_min_payment);
    assert_eq!(p.api_endpoint, "/v1/predict");
    assert_eq!(p.facilitator, key(50));
}

#[test]
fn payment_facilitator_checks() {
    let c = payment_config();
    assert_eq!(pay(&c, key(51), 2_000_000, T0).err(), Some(XLiquidityEngineError::InvalidFacilitator));
    let unset = config();
    assert_eq!(pay(&unset, Key::zero(), 2_000_000, T0).err(), Some(XLiquidityEngineError::InvalidFacilitator));
    assert_eq!(
        pay(&c, key(50), 2_000_000, i64::MAX - 3599).err(),
        Some(XLiquidityEngineError::ArithmeticOverflow)
    );
    assert!(pay(&c, key(50), 2_000_000, i64::MAX - 3600).is_ok());
}

#[test]
fn key_equality() {
    assert!(key(3).equals(&key(3)));
    assert!(!key(3).equals(&key(4)));
    let mut b = [3u8; 32];
    b[31] = 0;
    assert!(!key(3).equals(&Key::new(b)));
    assert_eq!(Key::zero(), key(0));
}

#[test]
fn error_messages() {
    assert_eq!(XLiquidityEngineError::SlippageTooHigh.message(), "Slippage tolerance too high");
    assert_eq!(XLiquidityEngineError::NoFeesToCollect.message(), "No fees to collect");
    assert_eq!(XLiquidityEngineError::AlreadyApproved.message(), "Decision already approved");
}
