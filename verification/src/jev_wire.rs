//! Jev SystemOne wire shapes for `POST /v1/systemone`: `state` plus parallel
//! typed `questions` in, typed answers with probabilities and confidence out.
//!
//! Numbers are in thousandths (see `jev::UNIT`); the JSON framing of these
//! shapes is done outside this library.
use vstd::prelude::*;
use crate::strmap::StrMap;

verus! {

/// Default model alias (server resolves to latest `jev-1.x`).
pub const JEV_DEFAULT_MODEL: &'static str = "jev-latest";

/// SystemOne evaluate path.
pub const JEV_SYSTEMONE_PATH: &'static str = "/v1/systemone";

/// One typed question in a SystemOne request.
#[derive(Debug, Clone, PartialEq, Eq)]
pub enum WireQuestion {
    /// Pick one option from `criteria` (option -> description).
    Choice {
        /// What to decide.
        instructions: String,
        /// Option name -> description (max 255 for Jev).
        criteria: StrMap<String>,
    },
    /// Rate on an ordered rubric (level -> description).
    Score {
        /// What to rate.
        instructions: String,
        /// Level name -> description.
        criteria: StrMap<String>,
    },
    /// Yes/no probability.
    Noul {
        /// Statement to test.
        instructions: String,
    },
}

/// The context a request is evaluated against.
#[derive(Debug, Clone, PartialEq, Eq)]
pub enum WireState {
    /// Plain text, sent as a JSON string.
    Text(String),
    /// Structured context, held as the JSON text of the value and sent as
    /// that value.
    Structured(String),
}

/// SystemOne request body.
#[derive(Debug, Clone, PartialEq, Eq)]
pub struct WireRequest {
    /// Model alias, e.g. `jev-latest`.
    pub model: String,
    /// Context: text or structured JSON.
    pub state: WireState,
    /// Question name -> typed question (all evaluated in parallel).
    pub questions: StrMap<WireQuestion>,
}

impl WireRequest {
    /// Build a request with text state.
    pub fn new(model: &str, state_text: &str, questions: StrMap<WireQuestion>) -> (r: Self)
        ensures
            r.model@ == model@,
            r.state matches WireState::Text(t) && t@ == state_text@,
            r.questions == questions,
    {
        WireRequest {
            model: String::from_str(model),
            state: WireState::Text(String::from_str(state_text)),
            questions,
        }
    }
}

/// Typed answer in a SystemOne response.
#[derive(Debug, Clone, PartialEq, Eq)]
pub enum WireAnswer {
    /// Choice result with per-option probabilities and confidence.
    Choice {
        /// Winning option.
        choice: String,
        /// Option -> probability, in thousandths.
        probabilities: StrMap<i64>,
        /// Calibrated confidence, in thousandths.
        confidence: i64,
    },
    /// Score result.
    Score {
        /// Continuous score, in thousandths.
        score: i64,
        /// Calibrated confidence, in thousandths.
        confidence: i64,
    },
    /// Yes/no result.
    Noul {
        /// Probability yes, in thousandths.
        noul: i64,
    },
}

/// SystemOne response body (the subset routing uses).
#[derive(Debug, Clone, PartialEq, Eq)]
pub struct WireResponse {
    /// Resolved versioned model, e.g. `jev-1.13.0`.
    pub model: String,
    /// Question name -> typed answer.
    pub answers: StrMap<WireAnswer>,
}

} // verus!
