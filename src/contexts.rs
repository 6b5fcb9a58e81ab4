use vstd::prelude::*;
use crate::key::Key;

verus! {

/// Identities presented to `initialize_protocol_config`.
#[derive(Clone, Copy, Debug, PartialEq, Eq)]
pub struct InitializeProtocolConfig {
    pub authority: Key,
    pub fee_recipient: Key,
}

/// Identities presented to `create_liquidity_position`.
#[derive(Clone, Copy, Debug, PartialEq, Eq)]
pub struct CreateLiquidityPosition {
    /// The address the new position is stored under.
    pub position: Key,
    pub owner: Key,
    pub token_a_vault: Key,
    pub token_b_vault: Key,
    pub pool: Key,
}

/// Identities presented to `create_rebalance_decision`.
#[derive(Clone, Copy, Debug, PartialEq, Eq)]
pub struct CreateRebalanceDecision {
    /// The address of the position the decision is for.
    pub position: Key,
    pub payer: Key,
}

/// Identities presented to `execute_rebalance`.
#[derive(Clone, Copy, Debug, PartialEq, Eq)]
pub struct ExecuteRebalance {
    /// The address of the position being rebalanced.
    pub position: Key,
    /// The approver who signs the execution, if one does.
    pub approver: Option<Key>,
}

/// Identities presented to `verify_x402_payment`.
#[derive(Clone, Copy, Debug, PartialEq, Eq)]
pub struct VerifyX402Payment {
    pub payer: Key,
    pub payer_wallet: Key,
    pub facilitator: Key,
}

/// Identities presented to `collect_fees`.
#[derive(Clone, Copy, Debug, PartialEq, Eq)]
pub struct CollectFees {
    /// The address of the position whose fees are collected.
    pub position: Key,
    pub owner: Key,
}

/// Identities presented to `approve_rebalance`.
#[derive(Clone, Copy, Debug, PartialEq, Eq)]
pub struct ApproveRebalance {
    pub approver: Key,
}

} // verus!
