use vstd::prelude::*;

verus! {

/// Risk tier that the classifier assigns to a proposed strategy change.
#[derive(Clone, Copy, Debug, PartialEq, Eq, Structural)]
pub enum RiskLevel {
    Low,
    Medium,
    High,
    Critical,
}

/// The tier for the given model signals, by the ordered thresholds: the first
/// rule that matches decides.
pub open spec fn risk_of(confidence: int, sentiment: int, volatility: int) -> RiskLevel {
    if confidence < 5000 || volatility > 8000 {
        RiskLevel::Critical
    } else if confidence < 7000 || volatility > 6000 || sentiment < -5000 {
        RiskLevel::High
    } else if confidence < 8500 || volatility > 4000 {
        RiskLevel::Medium
    } else {
        RiskLevel::Low
    }
}

/// Classifies model signals into a risk tier.
pub fn assess_risk(confidence: u16, sentiment: i16, volatility: u16) -> (r: RiskLevel)
    ensures
        r == risk_of(confidence as int, sentiment as int, volatility as int),
{
    if confidence < 5000 || volatility > 8000 {
        RiskLevel::Critical
    } else if confidence < 7000 || volatility > 6000 || sentiment < -5000 {
        RiskLevel::High
    } else if confidence < 8500 || volatility > 4000 {
        RiskLevel::Medium
    } else {
        RiskLevel::Low
    }
}

} // verus!
