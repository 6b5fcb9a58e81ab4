use vstd::prelude::*;

verus! {

/// The venue whose pool a position provides liquidity to.
#[derive(Clone, Copy, Debug, PartialEq, Eq, Structural)]
pub enum DexType {
    Raydium,
    Orca,
    Meteora,
    Unknown,
}

/// Lifecycle of a liquidity position.
#[derive(Clone, Copy, Debug, PartialEq, Eq, Structural)]
pub enum PositionStatus {
    Active,
    Paused,
    Closed,
    Liquidated,
}

/// Lifecycle of a rebalance decision. `Pending` is the only non-terminal state.
#[derive(Clone, Copy, Debug, PartialEq, Eq, Structural)]
pub enum ExecutionStatus {
    Pending,
    Executed,
    /// Reserved for the outside executor to report a swap that failed after
    /// execution was granted; no operation of this engine sets it.
    Failed,
    Rejected,
    Cancelled,
}

/// Lifecycle of a metered-access payment.
#[derive(Clone, Copy, Debug, PartialEq, Eq, Structural)]
pub enum PaymentStatus {
    Pending,
    Verified,
    Settled,
    Failed,
    Refunded,
}

/// Currency a payment is made in.
#[derive(Clone, Copy, Debug, PartialEq, Eq, Structural)]
pub enum PaymentCurrency {
    SOL,
    USDC,
    USDT,
}

/// Family of a user-defined strategy.
#[derive(Clone, Copy, Debug, PartialEq, Eq, Structural)]
pub enum StrategyType {
    Conservative,
    Balanced,
    Aggressive,
    Custom,
}

/// How often a user's strategy wants to rebalance.
#[derive(Clone, Copy, Debug, PartialEq, Eq, Structural)]
pub enum RebalanceFrequency {
    OnSignal,
    Daily,
    Weekly,
    Monthly,
    Manual,
}

/// Level of compliance checking the protocol runs with.
#[derive(Clone, Copy, Debug, PartialEq, Eq, Structural)]
pub enum ComplianceMode {
    Basic,
    Enhanced,
    Full,
}

/// Risk appetite declared by a user's strategy.
#[derive(Clone, Copy, Debug, PartialEq, Eq, Structural)]
pub enum RiskTolerance {
    Low,
    Medium,
    High,
}

/// Kind of an audit record.
#[derive(Clone, Copy, Debug, PartialEq, Eq, Structural)]
pub enum AuditEventType {
    PositionCreated,
    PositionClosed,
    Rebalanced,
    FeesCollected,
    PaymentReceived,
    PolicyViolation,
    HumanApprovalRequired,
    HumanApprovalGranted,
    /// A decision that needs no human approval was proposed.
    DecisionCreated,
}

/// A reading of the host's clock: wall-clock seconds and the slot counter.
#[derive(Clone, Copy, Debug, PartialEq, Eq, Structural)]
pub struct Clock {
    pub unix_timestamp: i64,
    pub slot: u64,
}

/// A concentrated-liquidity range: tick bounds and the matching price bounds.
#[derive(Clone, Copy, Debug, PartialEq, Eq, Structural)]
pub struct PriceRange {
    pub tick_lower: i32,
    pub tick_upper: i32,
    pub price_lower: u128,
    pub price_upper: u128,
}

impl PriceRange {
    /// Both bound pairs are strictly ordered.
    pub open spec fn wf(self) -> bool {
        self.tick_lower < self.tick_upper && self.price_lower < self.price_upper
    }

    /// Whether both bound pairs are strictly ordered.
    pub fn is_ordered(&self) -> (r: bool)
        ensures
            r == self.wf(),
    {
        self.tick_lower < self.tick_upper && self.price_lower < self.price_upper
    }
}

} // verus!
