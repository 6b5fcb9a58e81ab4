use vstd::prelude::*;

verus! {

/// Every way an engine operation can refuse to act. A refused operation
/// leaves all entities as they were.
#[derive(Clone, Copy, Debug, PartialEq, Eq, Structural)]
pub enum XLiquidityEngineError {
    InvalidPriceRange,
    ExceedsMaxPositionSize,
    ExceedsMaxTradeSize,
    PositionNotActive,
    RebalanceTooFrequent,
    InvalidExecutionStatus,
    HumanApprovalRequired,
    InvalidApprover,
    SlippageTooHigh,
    PaymentTooSmall,
    InvalidFacilitator,
    NoFeesToCollect,
    ApprovalNotRequired,
    /// The decision already carries an approval.
    AlreadyApproved,
    /// The position's range moved since the decision was proposed.
    StaleDecision,
    /// A counter or timestamp would leave its integer range.
    ArithmeticOverflow,
}

impl XLiquidityEngineError {
    /// The human-readable message of the error.
    pub fn message(&self) -> (r: &'static str)
        ensures
            *self == XLiquidityEngineError::InvalidPriceRange ==> r@ == "Invalid price range"@,
            *self == XLiquidityEngineError::ExceedsMaxPositionSize ==> r@ == "Position exceeds maximum size"@,
            *self == XLiquidityEngineError::ExceedsMaxTradeSize ==> r@ == "Trade exceeds maximum size"@,
            *self == XLiquidityEngineError::PositionNotActive ==> r@ == "Position is not active"@,
            *self == XLiquidityEngineError::RebalanceTooFrequent ==> r@ == "Rebalance too frequent"@,
            *self == XLiquidityEngineError::InvalidExecutionStatus ==> r@ == "Invalid execution status"@,
            *self == XLiquidityEngineError::HumanApprovalRequired ==> r@ == "Human approval required"@,
            *self == XLiquidityEngineError::InvalidApprover ==> r@ == "Invalid approver"@,
            *self == XLiquidityEngineError::SlippageTooHigh ==> r@ == "Slippage tolerance too high"@,
            *self == XLiquidityEngineError::PaymentTooSmall ==> r@ == "Payment amount too small"@,
            *self == XLiquidityEngineError::InvalidFacilitator ==> r@ == "Invalid facilitator"@,
            *self == XLiquidityEngineError::NoFeesToCollect ==> r@ == "No fees to collect"@,
            *self == XLiquidityEngineError::ApprovalNotRequired ==> r@ == "Approval not required"@,
            *self == XLiquidityEngineError::AlreadyApproved ==> r@ == "Decision already approved"@,
            *self == XLiquidityEngineError::StaleDecision ==> r@ == "Position range changed since the decision"@,
            *self == XLiquidityEngineError::ArithmeticOverflow ==> r@ == "Arithmetic overflow"@,
    {
        match self {
            XLiquidityEngineError::InvalidPriceRange => "Invalid price range",
            XLiquidityEngineError::ExceedsMaxPositionSize => "Position exceeds maximum size",
            XLiquidityEngineError::ExceedsMaxTradeSize => "Trade exceeds maximum size",
            XLiquidityEngineError::PositionNotActive => "Position is not active",
            XLiquidityEngineError::RebalanceTooFrequent => "Rebalance too frequent",
            XLiquidityEngineError::InvalidExecutionStatus => "Invalid execution status",
            XLiquidityEngineError::HumanApprovalRequired => "Human approval required",
            XLiquidityEngineError::InvalidApprover => "Invalid approver",
            XLiquidityEngineError::SlippageTooHigh => "Slippage tolerance too high",
            XLiquidityEngineError::PaymentTooSmall => "Payment amount too small",
            XLiquidityEngineError::InvalidFacilitator => "Invalid facilitator",
            XLiquidityEngineError::NoFeesToCollect => "No fees to collect",
            XLiquidityEngineError::ApprovalNotRequired => "Approval not required",
            XLiquidityEngineError::AlreadyApproved => "Decision already approved",
            XLiquidityEngineError::StaleDecision => "Position range changed since the decision",
            XLiquidityEngineError::ArithmeticOverflow => "Arithmetic overflow",
        }
    }
}

} // verus!
