use vstd::prelude::*;
use crate::key::Key;
use crate::risk::RiskLevel;
use crate::types::{
    AuditEventType, ComplianceMode, DexType, ExecutionStatus, PaymentCurrency, PaymentStatus,
    PositionStatus, PriceRange, RebalanceFrequency, RiskTolerance, StrategyType,
};

verus! {

/// Protocol-wide limits and fee parameters. Operations read it; none writes it.
pub struct ProtocolConfig {
    pub authority: Key,
    pub performance_fee_bps: u16,
    pub protocol_fee_bps: u16,
    pub fee_recipient: Key,
    pub x402_facilitator: Option<Key>,
    pub x402_min_payment: u64,
    pub x402_api_base_url: String,
    pub min_rebalance_interval: u32,
    pub max_rebalance_frequency: u32,
    pub default_slippage_tolerance_bps: u16,
    pub max_position_size: u64,
    pub max_single_trade_size: u64,
    pub require_human_approval_threshold: u64,
    pub default_ai_model_version: String,
    pub ai_model_registry: Vec<Key>,
    pub audit_log_enabled: bool,
    pub compliance_mode: ComplianceMode,
    pub created_at: i64,
    pub updated_at: i64,
}

/// A concentrated-liquidity position managed by the engine.
pub struct LiquidityPosition {
    pub owner: Key,
    pub token_a: Key,
    pub token_b: Key,
    pub token_a_vault: Key,
    pub token_b_vault: Key,
    pub dex: DexType,
    pub pool_address: Key,
    pub position_nft: Option<Key>,
    pub current_tick_lower: i32,
    pub current_tick_upper: i32,
    pub current_price_lower: u128,
    pub current_price_upper: u128,
    pub liquidity_amount: u128,
    pub total_fees_earned_a: u64,
    pub total_fees_earned_b: u64,
    pub total_value_locked: u64,
    pub last_rebalance_slot: u64,
    pub last_rebalance_timestamp: i64,
    pub rebalance_count: u32,
    pub total_return_percentage: i16,
    pub apy_estimate: u16,
    pub status: PositionStatus,
    pub auto_rebalance_enabled: bool,
    pub min_rebalance_interval: u32,
    pub max_position_size: u64,
    pub max_single_trade: u64,
    pub allowed_dex_programs: Vec<Key>,
    pub created_at: i64,
    pub updated_at: i64,
}

impl LiquidityPosition {
    /// The position's current range.
    pub open spec fn spec_range(&self) -> PriceRange {
        PriceRange {
            tick_lower: self.current_tick_lower,
            tick_upper: self.current_tick_upper,
            price_lower: self.current_price_lower,
            price_upper: self.current_price_upper,
        }
    }

    /// The range is well ordered, as creation and every execution keep it.
    pub open spec fn wf(&self) -> bool {
        self.spec_range().wf()
    }

    /// The position's current range.
    pub fn range(&self) -> (r: PriceRange)
        ensures
            r == self.spec_range(),
    {
        PriceRange {
            tick_lower: self.current_tick_lower,
            tick_upper: self.current_tick_upper,
            price_lower: self.current_price_lower,
            price_upper: self.current_price_upper,
        }
    }
}

/// A proposed change of a position's range, with the model metadata behind it.
pub struct RebalanceDecision {
    pub position: Key,
    pub new_tick_lower: i32,
    pub new_tick_upper: i32,
    pub new_price_lower: u128,
    pub new_price_upper: u128,
    /// The position's range when the decision was proposed; execution is
    /// refused once the position has moved away from it.
    pub base_range: PriceRange,
    pub ai_model_version: String,
    pub ai_model_hash: [u8; 32],
    pub prediction_confidence: u16,
    pub market_sentiment_score: i16,
    pub volatility_metric: u16,
    pub whale_activity_score: u16,
    pub on_chain_indicators: Vec<u64>,
    pub decision_reason: String,
    pub risk_assessment: RiskLevel,
    pub execution_status: ExecutionStatus,
    pub execution_tx_signature: Option<String>,
    pub execution_slippage: Option<u16>,
    pub requires_human_approval: bool,
    pub human_approver: Option<Key>,
    pub approval_timestamp: Option<i64>,
    pub created_at: i64,
    pub executed_at: Option<i64>,
}

impl RebalanceDecision {
    /// The range the decision proposes.
    pub open spec fn spec_new_range(&self) -> PriceRange {
        PriceRange {
            tick_lower: self.new_tick_lower,
            tick_upper: self.new_tick_upper,
            price_lower: self.new_price_lower,
            price_upper: self.new_price_upper,
        }
    }

    /// The range the decision proposes.
    pub fn new_range(&self) -> (r: PriceRange)
        ensures
            r == self.spec_new_range(),
    {
        PriceRange {
            tick_lower: self.new_tick_lower,
            tick_upper: self.new_tick_upper,
            price_lower: self.new_price_lower,
            price_upper: self.new_price_upper,
        }
    }
}

/// A payment for metered API access.
pub struct X402Payment {
    pub payment_id: [u8; 32],
    pub payer: Key,
    pub payer_wallet: Key,
    pub amount: u64,
    pub currency: PaymentCurrency,
    pub payment_status: PaymentStatus,
    pub facilitator: Key,
    pub facilitator_signature: Option<[u8; 64]>,
    pub payment_tx_signature: Option<String>,
    pub api_endpoint: String,
    pub api_version: String,
    pub access_granted: bool,
    pub access_expires_at: Option<i64>,
    pub requested_at: i64,
    pub verified_at: Option<i64>,
    pub settled_at: Option<i64>,
}

/// A user's strategy preferences.
pub struct UserStrategy {
    pub user: Key,
    pub strategy_name: String,
    pub strategy_type: StrategyType,
    pub risk_tolerance: RiskTolerance,
    pub auto_rebalance_enabled: bool,
    pub rebalance_frequency: RebalanceFrequency,
    pub price_range_width: u16,
    pub max_position_size: Option<u64>,
    pub max_single_trade: Option<u64>,
    pub max_slippage_bps: Option<u16>,
    pub preferred_tokens: Vec<Key>,
    pub blacklisted_tokens: Vec<Key>,
    pub preferred_ai_model: Option<String>,
    pub require_human_approval: bool,
    pub created_at: i64,
    pub updated_at: i64,
}

/// What an audit record carries besides its kind and actors.
#[derive(Clone, Copy, Debug, PartialEq, Eq, Structural)]
pub enum AuditPayload {
    Empty,
    Rebalanced { old_range: PriceRange, new_range: PriceRange },
    FeesCollected { amount_a: u64, amount_b: u64 },
}

/// An append-only audit record, handed to the audit sink by each state change.
#[derive(Clone, Copy, Debug, PartialEq, Eq)]
pub struct AuditLog {
    pub event_type: AuditEventType,
    pub position: Option<Key>,
    pub user: Key,
    pub event_data: AuditPayload,
    /// SHA-256 of the record's content, for tamper evidence.
    pub event_hash: [u8; 32],
    pub created_at: i64,
    pub slot: u64,
}

} // verus!
