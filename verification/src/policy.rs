//! Policy engine: budget x quality x sensitivity.
//!
//! Pure, deterministic routing on top of Jev answers. The answer tells you
//! *what*; confidence tells you *whether to act*. Scores are in thousandths
//! (see `jev::UNIT`).
use vstd::prelude::*;

verus! {

/// Where a request should execute.
#[derive(Debug, Clone, Copy, PartialEq, Eq, Structural)]
pub enum Route {
    /// Direct NEAR AI Cloud inference (lookup, summary, extraction).
    DirectLlm,
    /// Personal IronClaw instance (needs tools, email, calendar, code).
    IronclawPersonal,
    /// Hired marketplace specialist (finance, legal, research pro).
    MarketplaceSpecialist,
    /// Stop and ask a human (low confidence, over budget, unsafe).
    HumanReview,
}

/// Inputs to the policy, built from Jev `Choice`/`Score`/`Noul` answers.
#[derive(Debug, Clone, Copy, PartialEq, Eq, Structural)]
pub struct PolicyInput {
    /// Task complexity 0 (lookup) .. 2000 (high-stakes).
    pub complexity: i64,
    /// Data sensitivity 0 (public) .. 2000 (secret/regulated).
    pub sensitivity: i64,
    /// Jev `needs_private` probability 0..=1000.
    pub needs_private: i64,
    /// Jev routing confidence 0..=1000.
    pub confidence: i64,
    /// Remaining budget in cents.
    pub budget_cents: u64,
    /// Estimated cost in cents for the preferred route.
    pub estimated_cents: u64,
}

/// Policy outcome with a human-readable reason.
#[derive(Debug, Clone, PartialEq, Eq)]
pub struct Decision {
    /// Chosen route.
    pub route: Route,
    /// Must stay on TEE-hosted private models.
    pub force_tee: bool,
    /// Why this route was chosen (for UI + logs).
    pub reason: String,
}

/// Private inference is forced when Jev is at least 0.8 sure it is needed,
/// or the data is rated 1.2 or more on the sensitivity rubric.
pub open spec fn forces_tee(needs_private: int, sensitivity: int) -> bool {
    needs_private >= 800 || sensitivity >= 1200
}

/// The agent a task of this complexity goes to once the gates pass:
/// below 0.7 a lookup, below 1.4 multi-step work, else high stakes.
pub open spec fn complexity_route(complexity: int) -> Route {
    if complexity < 700 {
        Route::DirectLlm
    } else if complexity < 1400 {
        Route::IronclawPersonal
    } else {
        Route::MarketplaceSpecialist
    }
}

/// The route `decide` picks: the confidence gate first, then the budget
/// gate, then the complexity bands.
pub open spec fn decided_route(input: PolicyInput, confidence_floor: i64) -> Route {
    if input.confidence < confidence_floor {
        Route::HumanReview
    } else if input.estimated_cents > input.budget_cents {
        Route::HumanReview
    } else {
        complexity_route(input.complexity as int)
    }
}

/// The reason `decide` gives for its route.
pub open spec fn decided_reason(input: PolicyInput, confidence_floor: i64) -> Seq<char> {
    if input.confidence < confidence_floor {
        "low Jev confidence — escalate"@
    } else if input.estimated_cents > input.budget_cents {
        "over budget — needs approval"@
    } else if input.complexity < 700 {
        "simple lookup — direct inference"@
    } else if input.complexity < 1400 {
        "multi-step with tools — personal agent"@
    } else {
        "high-stakes — hire specialist"@
    }
}

/// Decide a route. Thresholds are explicit so behavior is auditable.
pub fn decide(input: &PolicyInput, confidence_floor: i64) -> (d: Decision)
    ensures
        d.route == decided_route(*input, confidence_floor),
        d.force_tee == forces_tee(input.needs_private as int, input.sensitivity as int),
        d.reason@ == decided_reason(*input, confidence_floor),
{
    let tee = input.needs_private >= 800 || input.sensitivity >= 1200;
    if input.confidence < confidence_floor {
        return Decision {
            route: Route::HumanReview,
            force_tee: tee,
            reason: String::from_str("low Jev confidence — escalate"),
        };
    }
    if input.estimated_cents > input.budget_cents {
        return Decision {
            route: Route::HumanReview,
            force_tee: tee,
            reason: String::from_str("over budget — needs approval"),
        };
    }
    if input.complexity < 700 {
        return Decision {
            route: Route::DirectLlm,
            force_tee: tee,
            reason: String::from_str("simple lookup — direct inference"),
        };
    }
    if input.complexity < 1400 {
        return Decision {
            route: Route::IronclawPersonal,
            force_tee: tee,
            reason: String::from_str("multi-step with tools — personal agent"),
        };
    }
    Decision {
        route: Route::MarketplaceSpecialist,
        force_tee: tee,
        reason: String::from_str("high-stakes — hire specialist"),
    }
}

/// How far up the ladder of agents a route goes; `HumanReview` is above all.
pub open spec fn route_tier(r: Route) -> int {
    match r {
        Route::DirectLlm => 0,
        Route::IronclawPersonal => 1,
        Route::MarketplaceSpecialist => 2,
        Route::HumanReview => 3,
    }
}

/// A request goes to a human exactly when a gate trips: confidence below
/// the floor, or an estimate over the budget.
pub proof fn law_human_review_iff_gate(input: PolicyInput, confidence_floor: i64)
    ensures
        (decided_route(input, confidence_floor) == Route::HumanReview) <==> (input.confidence
            < confidence_floor || input.estimated_cents > input.budget_cents),
{
}

/// Raising complexity alone never moves a request to a lesser agent, and
/// never changes whether it goes to a human.
pub proof fn law_route_grows_with_complexity(
    a: PolicyInput,
    b: PolicyInput,
    confidence_floor: i64,
)
    requires
        a.complexity <= b.complexity,
        a.sensitivity == b.sensitivity,
        a.needs_private == b.needs_private,
        a.confidence == b.confidence,
        a.budget_cents == b.budget_cents,
        a.estimated_cents == b.estimated_cents,
    ensures
        route_tier(decided_route(a, confidence_floor)) <= route_tier(
            decided_route(b, confidence_floor),
        ),
        (decided_route(a, confidence_floor) == Route::HumanReview) == (decided_route(
            b,
            confidence_floor,
        ) == Route::HumanReview),
{
}

} // verus!

verus! {

/// Private (TEE) inference is required exactly when the data is rated 1.2 or
/// more on the sensitivity rubric, whatever Jev's needs_private is, or when
/// Jev is at least 0.8 sure it is needed; a more sensitive or more private
/// request never loses the requirement. This holds of `decide`'s
/// `force_tee` whatever the route.
pub proof fn law_tee_when_sensitive_or_private(input: PolicyInput, more: PolicyInput)
    requires
        more.sensitivity >= input.sensitivity,
        more.needs_private >= input.needs_private,
    ensures
        input.sensitivity >= 1200 ==> forces_tee(input.needs_private as int, input.sensitivity as int),
        input.needs_private >= 800 ==> forces_tee(input.needs_private as int, input.sensitivity as int),
        input.sensitivity < 1200 && input.needs_private < 800 ==> !forces_tee(
            input.needs_private as int,
            input.sensitivity as int,
        ),
        forces_tee(input.needs_private as int, input.sensitivity as int) ==> forces_tee(
            more.needs_private as int,
            more.sensitivity as int,
        ),
{
}

} // verus!
