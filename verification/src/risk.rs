//! Risk classification, kept separate from capabilities: holding a
//! capability does not mean an operation at that capability's highest risk
//! runs without an extra approval step.

use vstd::prelude::*;

use crate::text::text_eq;

verus! {

/// Risk classes, ordered from least to most severe.
#[derive(Debug, Clone, Copy, PartialEq, Eq, Structural, PartialOrd, Ord, Hash)]
pub enum RiskLevel {
    Low,
    Normal,
    High,
    Critical,
}

/// Severity rank: `Low` is 0 and `Critical` is 3.
pub open spec fn risk_rank(risk: RiskLevel) -> nat {
    match risk {
        RiskLevel::Low => 0,
        RiskLevel::Normal => 1,
        RiskLevel::High => 2,
        RiskLevel::Critical => 3,
    }
}

/// The risk level named by a lowercase name, if any.
pub open spec fn spec_risk_named(name: Seq<char>) -> Option<RiskLevel> {
    if name == "low"@ {
        Some(RiskLevel::Low)
    } else if name == "normal"@ {
        Some(RiskLevel::Normal)
    } else if name == "high"@ {
        Some(RiskLevel::High)
    } else if name == "critical"@ {
        Some(RiskLevel::Critical)
    } else {
        None
    }
}

impl RiskLevel {
    /// Parses a lowercase risk level name, as used in the tool registry.
    /// Anything else is `None`: a malformed entry must fail loudly rather
    /// than default to `Low`.
    pub fn parse(name: &str) -> (parsed: Option<RiskLevel>)
        ensures
            parsed == spec_risk_named(name@),
    {
        if text_eq(name, "low") {
            Some(RiskLevel::Low)
        } else if text_eq(name, "normal") {
            Some(RiskLevel::Normal)
        } else if text_eq(name, "high") {
            Some(RiskLevel::High)
        } else if text_eq(name, "critical") {
            Some(RiskLevel::Critical)
        } else {
            None
        }
    }

    /// The severity rank of this level.
    pub fn rank(&self) -> (r: u8)
        ensures
            r == risk_rank(*self),
    {
        match self {
            RiskLevel::Low => 0,
            RiskLevel::Normal => 1,
            RiskLevel::High => 2,
            RiskLevel::Critical => 3,
        }
    }
}

} // verus!
