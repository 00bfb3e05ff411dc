//! Jev System One router types: `Choice` picks one option, `Score` rates on a
//! rubric, `Noul` is a yes/no probability. Every answer carries a calibrated
//! confidence for gating.
//!
//! Scores, probabilities and confidences are fixed-point numbers in
//! thousandths: `UNIT` (1000) stands for 1.0, so 0.85 is 850.
use vstd::prelude::*;
use std::collections::BTreeMap;
use crate::strmap::StrMap;

verus! {

/// The fixed-point value of 1.0.
pub const UNIT: i64 = 1000;

/// Input context evaluated by Jev.
#[derive(Debug, Clone, PartialEq, Eq)]
pub struct State {
    /// User brief or prompt text (redacted, no secrets).
    pub text: String,
    /// Remaining budget in cents for this user/task.
    pub budget_cents: u64,
}

impl State {
    /// Build a new routing state.
    pub fn new(text: &str, budget_cents: u64) -> (s: Self)
        ensures
            s.text@ == text@,
            s.budget_cents == budget_cents,
    {
        State { text: String::from_str(text), budget_cents }
    }
}

/// A `Choice` question: pick one handler from a fixed set (max 255 for Jev).
#[derive(Debug, Clone, PartialEq, Eq)]
pub struct ChoiceQuestion {
    /// What to decide.
    pub instructions: String,
    /// Option name -> description.
    pub criteria: StrMap<String>,
}

/// Answer to a `Choice` question.
#[derive(Debug, Clone, PartialEq, Eq)]
pub struct ChoiceAnswer {
    /// Winning option name.
    pub choice: String,
    /// Probability per option, in thousandths (sums to about `UNIT`).
    pub probabilities: StrMap<i64>,
    /// Calibrated confidence in thousandths: whether to act.
    pub confidence: i64,
}

/// A `Score` question: rate state on an ordered rubric.
#[derive(Debug, Clone, PartialEq, Eq)]
pub struct ScoreQuestion {
    /// What to rate.
    pub instructions: String,
    /// Level index -> description.
    pub levels: BTreeMap<u8, String>,
}

/// Answer to a `Score` question.
#[derive(Debug, Clone, Copy, PartialEq, Eq)]
pub struct ScoreAnswer {
    /// Continuous score in thousandths, e.g. 1400 on a 0..=2000 rubric.
    pub score: i64,
    /// Calibrated confidence in thousandths.
    pub confidence: i64,
}

/// A `Noul` question: probability the statement is true.
#[derive(Debug, Clone, PartialEq, Eq)]
pub struct NoulQuestion {
    /// Statement to test.
    pub instructions: String,
}

/// Answer to a `Noul` question: probability yes, in thousandths.
#[derive(Debug, Clone, Copy, PartialEq, Eq)]
pub struct NoulAnswer {
    /// Probability the statement is true.
    pub noul: i64,
}

/// Confidence-gated routing: escalate when confidence is below threshold.
pub fn should_escalate(confidence: i64, threshold: i64) -> (r: bool)
    ensures
        r == (confidence < threshold),
{
    confidence < threshold
}

/// `v` held to the unit range `0..=UNIT`.
pub open spec fn unit_clamp(v: int) -> int {
    if v < 0 {
        0
    } else if v > UNIT {
        UNIT as int
    } else {
        v
    }
}

/// Clamp a probability or score into the unit range `0..=UNIT`.
pub fn clamp01(value: i64) -> (r: i64)
    ensures
        r == unit_clamp(value as int),
        0 <= r <= UNIT,
{
    if value < 0 {
        0
    } else if value > UNIT {
        UNIT
    } else {
        value
    }
}

/// Clamping lands in the unit range, keeps values already there, and is
/// idempotent.
pub proof fn law_clamp_unit_range(v: int)
    ensures
        0 <= unit_clamp(v) <= UNIT,
        0 <= v <= UNIT ==> unit_clamp(v) == v,
        unit_clamp(unit_clamp(v)) == unit_clamp(v),
{
}

} // verus!
