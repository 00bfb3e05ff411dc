//! End-to-end routing loop: a Jev response is mapped to answers, routed under
//! a client monthly cap, and priced against a synthetic catalog.

use jear::budget::MonthlyBudget;
use jear::jev::State;
use jear::jev_wire::{WireAnswer, WireResponse};
use jear::live::{cheapest, pick_best};
use jear::near::{Hosting, ModelInfo};
use jear::near_wire::ModelEntry;
use jear::policy::Route;
use jear::route::{answers_from_wire, eligible_models, estimate_plan, route_with_monthly, Answers};
use jear::strmap::StrMap;

fn jev_answers(complexity: i64, sensitivity: i64, needs_private: i64, confidence: i64) -> Answers {
    let mut answers = StrMap::new();
    answers.insert(
        "complexity".to_string(),
        WireAnswer::Score {
            score: complexity,
            confidence,
        },
    );
    answers.insert(
        "sensitivity".to_string(),
        WireAnswer::Score {
            score: sensitivity,
            confidence,
        },
    );
    answers.insert(
        "needs_private".to_string(),
        WireAnswer::Noul {
            noul: needs_private,
        },
    );
    let resp = WireResponse {
        model: "jev-1.13.0".to_string(),
        answers,
    };
    answers_from_wire(&resp)
}

fn catalog() -> Vec<ModelEntry> {
    vec![
        ModelEntry {
            id: "cheap-tee".to_string(),
            context_length: Some(128_000),
            max_output_length: None,
            input_price_per_mtok: Some(200_000),
            output_price_per_mtok: Some(1_000_000),
            supports_tools: true,
            supports_reasoning: false,
        },
        ModelEntry {
            id: "pricey-frontier".to_string(),
            context_length: Some(200_000),
            max_output_length: None,
            input_price_per_mtok: Some(2_000_000),
            output_price_per_mtok: Some(12_000_000),
            supports_tools: true,
            supports_reasoning: true,
        },
    ]
}

#[test]
fn simple_task_routes_direct_and_picks_cheap() {
    let answers = jev_answers(300, 100, 0, 900);
    let state = State::new("summarize this paragraph", 500);
    let monthly = MonthlyBudget::new(5_000).expect("client cap");
    let d = route_with_monthly(&state, &answers, 5, 600, &monthly);
    assert_eq!(d.route, Route::DirectLlm);
    assert!(!d.force_tee);
    let (plan_in, plan_out) = estimate_plan(answers.complexity);
    assert_eq!((plan_in, plan_out), (500, 200));
    // Tiny plans round every model to 0c, so ties go to capability.
    // Price with a real workload to see cheap win on cost.
    let entries = catalog();
    let pick = pick_best(&entries, 100_000, 50_000).expect("priced catalog");
    assert_eq!(pick.id, "cheap-tee");
}

#[test]
fn complex_task_hires_specialist_with_big_plan() {
    let answers = jev_answers(1800, 200, 0, 900);
    let state = State::new("redesign our billing architecture", 5_000);
    let monthly = MonthlyBudget::new(5_000).expect("client cap");
    let d = route_with_monthly(&state, &answers, 5, 600, &monthly);
    assert_eq!(d.route, Route::MarketplaceSpecialist);
    assert_eq!(estimate_plan(answers.complexity), (4_000, 2_000));
}

#[test]
fn sensitive_task_forces_tee_and_filters_models() {
    let answers = jev_answers(300, 1900, 950, 900);
    let state = State::new("patient diagnoses export", 500);
    let monthly = MonthlyBudget::new(5_000).expect("client cap");
    let d = route_with_monthly(&state, &answers, 5, 600, &monthly);
    assert!(d.force_tee);
    let models = vec![
        ModelInfo::new("glm-tee", Hosting::Tee, true),
        ModelInfo::new("gpt-proxied", Hosting::Proxied, true),
        ModelInfo::new("anon-model", Hosting::Anonymized, true),
    ];
    let eligible = eligible_models(&models, &d);
    assert!(eligible.iter().any(|m| m.id == "glm-tee"));
    assert!(!eligible.iter().any(|m| m.id == "gpt-proxied"));
}

#[test]
fn broke_monthly_escalates_not_spends() {
    let answers = jev_answers(300, 100, 0, 900);
    let state = State::new("anything", 500);
    let mut monthly = MonthlyBudget::new(5_000).expect("client cap");
    monthly.record(5_000);
    let d = route_with_monthly(&state, &answers, 5, 600, &monthly);
    assert_eq!(d.route, Route::HumanReview);
}

#[test]
fn tiny_plans_tie_on_price_and_prefer_capability() {
    // (500, 200) prices every model at 0c: pick_best must prefer strength.
    let entries = catalog();
    let pick = pick_best(&entries, 500, 200).expect("priced catalog");
    assert_eq!(pick.id, "pricey-frontier");
}

#[test]
fn cheapest_and_best_agree_offline() {
    let entries = catalog();
    let cheap = cheapest(&entries, 1000, 500).expect("priced");
    let best = pick_best(&entries, 1000, 500).expect("priced");
    assert_eq!(cheap.id, "cheap-tee");
    assert_eq!(best.id, "cheap-tee");
}
