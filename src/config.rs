use vstd::prelude::*;
use crate::contexts::InitializeProtocolConfig;
use crate::state::ProtocolConfig;
use crate::types::{Clock, ComplianceMode};

verus! {

/// Base URL of the metered API, set when the protocol is initialised.
pub const DEFAULT_API_BASE_URL: &'static str = "https://api.x-liquidity-engine.com";

/// Model version recorded as the default at initialisation.
pub const DEFAULT_AI_MODEL_VERSION: &'static str = "v1.0.0";

/// Default minimum number of seconds between two rebalances of a position.
pub const DEFAULT_MIN_REBALANCE_INTERVAL: u32 = 3600;

/// Default cap on rebalances per day.
pub const DEFAULT_MAX_REBALANCE_FREQUENCY: u32 = 24;

/// Default slippage tolerance, in basis points.
pub const DEFAULT_SLIPPAGE_TOLERANCE_BPS: u16 = 50;

/// Default cap on a position's size, in scaled value units.
pub const DEFAULT_MAX_POSITION_SIZE: u64 = 1_000_000_000_000;

/// Default cap on a single trade, in scaled value units.
pub const DEFAULT_MAX_SINGLE_TRADE_SIZE: u64 = 100_000_000_000;

/// Default value locked from which every decision needs a human approval.
pub const DEFAULT_HUMAN_APPROVAL_THRESHOLD: u64 = 500_000_000_000;

/// The configuration a fresh protocol starts with, apart from its two strings.
pub open spec fn initial_config_fields(
    c: ProtocolConfig,
    ctx: InitializeProtocolConfig,
    performance_fee_bps: u16,
    protocol_fee_bps: u16,
    x402_min_payment: u64,
    clock: Clock,
) -> bool {
    &&& c.authority == ctx.authority
    &&& c.performance_fee_bps == performance_fee_bps
    &&& c.protocol_fee_bps == protocol_fee_bps
    &&& c.fee_recipient == ctx.fee_recipient
    &&& c.x402_facilitator is None
    &&& c.x402_min_payment == x402_min_payment
    &&& c.min_rebalance_interval == DEFAULT_MIN_REBALANCE_INTERVAL
    &&& c.max_rebalance_frequency == DEFAULT_MAX_REBALANCE_FREQUENCY
    &&& c.default_slippage_tolerance_bps == DEFAULT_SLIPPAGE_TOLERANCE_BPS
    &&& c.max_position_size == DEFAULT_MAX_POSITION_SIZE
    &&& c.max_single_trade_size == DEFAULT_MAX_SINGLE_TRADE_SIZE
    &&& c.require_human_approval_threshold == DEFAULT_HUMAN_APPROVAL_THRESHOLD
    &&& c.ai_model_registry@.len() == 0
    &&& c.audit_log_enabled
    &&& c.compliance_mode == ComplianceMode::Enhanced
    &&& c.created_at == clock.unix_timestamp
    &&& c.updated_at == clock.unix_timestamp
}

/// Creates the protocol configuration with the given fees and minimum payment
/// and the default limits; no facilitator is configured yet.
pub fn initialize_protocol_config(
    ctx: &InitializeProtocolConfig,
    performance_fee_bps: u16,
    protocol_fee_bps: u16,
    x402_min_payment: u64,
    clock: &Clock,
) -> (r: ProtocolConfig)
    ensures
        initial_config_fields(
            r,
            *ctx,
            performance_fee_bps,
            protocol_fee_bps,
            x402_min_payment,
            *clock,
        ),
        r.x402_api_base_url@ == DEFAULT_API_BASE_URL@,
        r.default_ai_model_version@ == DEFAULT_AI_MODEL_VERSION@,
{
    ProtocolConfig {
        authority: ctx.authority,
        performance_fee_bps,
        protocol_fee_bps,
        fee_recipient: ctx.fee_recipient,
        x402_facilitator: None,
        x402_min_payment,
        x402_api_base_url: String::from_str(DEFAULT_API_BASE_URL),
        min_rebalance_interval: DEFAULT_MIN_REBALANCE_INTERVAL,
        max_rebalance_frequency: DEFAULT_MAX_REBALANCE_FREQUENCY,
        default_slippage_tolerance_bps: DEFAULT_SLIPPAGE_TOLERANCE_BPS,
        max_position_size: DEFAULT_MAX_POSITION_SIZE,
        max_single_trade_size: DEFAULT_MAX_SINGLE_TRADE_SIZE,
        require_human_approval_threshold: DEFAULT_HUMAN_APPROVAL_THRESHOLD,
        default_ai_model_version: String::from_str(DEFAULT_AI_MODEL_VERSION),
        ai_model_registry: Vec::new(),
        audit_log_enabled: true,
        compliance_mode: ComplianceMode::Enhanced,
        created_at: clock.unix_timestamp,
        updated_at: clock.unix_timestamp,
    }
}

} // verus!
