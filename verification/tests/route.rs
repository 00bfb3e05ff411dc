use jear::budget::MonthlyBudget;
use jear::ironclaw::CostCaps;
use jear::jev::State;
use jear::jev_wire::{WireAnswer, WireResponse};
use jear::near::{Hosting, ModelInfo};
use jear::policy::Route;
use jear::route::{
    answers_from_wire, eligible_models, eligible_models_for, estimate_plan, route,
    route_with_monthly, within_caps, Answers,
};
use jear::strmap::StrMap;

fn state() -> State {
    State::new("summarize emails", 50)
}

fn answers() -> Answers {
    Answers::new(300, 200, 100, 900)
}

#[test]
fn simple_routes_direct() {
    let d = route(&state(), &answers(), 5, 600);
    assert_eq!(d.route, Route::DirectLlm);
}

#[test]
fn sensitive_filters_to_private_only() {
    let a = Answers::new(300, 1800, 900, 900);
    let d = route(&state(), &a, 5, 600);
    assert!(d.force_tee);
    let models = vec![
        ModelInfo::new("zai-org/GLM-5.1-FP8", Hosting::Tee, true),
        ModelInfo::new("openai/gpt-5", Hosting::Proxied, true),
    ];
    let eligible = eligible_models(&models, &d);
    assert_eq!(eligible.len(), 1);
    assert_eq!(eligible[0].id, "zai-org/GLM-5.1-FP8");
}

#[test]
fn medium_sensitivity_keeps_anonymized() {
    let models = vec![
        ModelInfo::new("glm-tee", Hosting::Tee, true),
        ModelInfo::new("anon-model", Hosting::Anonymized, true),
        ModelInfo::new("gpt-proxied", Hosting::Proxied, true),
    ];
    let tier1: Vec<&str> = eligible_models_for(&models, 1)
        .iter()
        .map(|m| m.id.as_str())
        .collect();
    assert_eq!(tier1, vec!["glm-tee", "anon-model"]);
    assert_eq!(eligible_models_for(&models, 2).len(), 1);
    assert_eq!(eligible_models_for(&models, 0).len(), 3);
}

#[test]
fn caps_gate_expensive_tasks() {
    let caps = CostCaps::new(500, 100).expect("valid caps");
    assert!(within_caps(&caps, 100));
    assert!(!within_caps(&caps, 101));
}

#[test]
fn monthly_over_spend_escalates() {
    let mut monthly = MonthlyBudget::new(7_500).expect("valid budget");
    monthly.record(7_499);
    let d = route_with_monthly(&state(), &answers(), 5, 600, &monthly);
    assert_eq!(d.route, Route::HumanReview);
    let fresh = MonthlyBudget::new(7_500).expect("valid budget");
    let ok = route_with_monthly(&state(), &answers(), 5, 600, &fresh);
    assert_eq!(ok.route, Route::DirectLlm);
}

#[test]
fn wire_response_maps_to_answers() {
    let mut answers = StrMap::new();
    answers.insert(
        "complexity".to_string(),
        WireAnswer::Score {
            score: 1800,
            confidence: 900,
        },
    );
    answers.insert(
        "sensitivity".to_string(),
        WireAnswer::Score {
            score: 200,
            confidence: 800,
        },
    );
    answers.insert("needs_private".to_string(), WireAnswer::Noul { noul: 100 });
    let resp = WireResponse {
        model: "jev-1.13.0".to_string(),
        answers,
    };
    let a = answers_from_wire(&resp);
    assert_eq!(a.complexity, 1800);
    assert_eq!(a.sensitivity, 200);
    assert_eq!(a.needs_private, 100);
    assert_eq!(a.confidence, 800);
}

#[test]
fn wire_response_defaults_when_empty() {
    let resp = WireResponse {
        model: "jev-1.13.0".to_string(),
        answers: StrMap::new(),
    };
    let a = answers_from_wire(&resp);
    assert_eq!(a.confidence, 500);
    assert_eq!(a.complexity, 500);
    assert_eq!(a.sensitivity, 0);
    assert_eq!(a.needs_private, 0);
}

#[test]
fn plans_grow_with_complexity() {
    assert_eq!(estimate_plan(300), (500, 200));
    assert_eq!(estimate_plan(1000), (2_000, 800));
    assert_eq!(estimate_plan(1800), (4_000, 2_000));
}

#[test]
fn answers_clamp_probability_and_confidence() {
    let a = Answers::new(-100, 2500, 1200, -5);
    assert_eq!(a.complexity, -100);
    assert_eq!(a.sensitivity, 2500);
    assert_eq!(a.needs_private, 1000);
    assert_eq!(a.confidence, 0);
}

#[test]
fn wire_answers_of_wrong_kind_fall_back() {
    let mut probabilities = StrMap::new();
    probabilities.insert("x".to_string(), 700);
    let mut answers = StrMap::new();
    answers.insert("complexity".to_string(), WireAnswer::Noul { noul: 900 });
    answers.insert(
        "needs_private".to_string(),
        WireAnswer::Score {
            score: 1000,
            confidence: 1200,
        },
    );
    answers.insert(
        "department".to_string(),
        WireAnswer::Choice {
            choice: "x".to_string(),
            probabilities,
            confidence: 950,
        },
    );
    let a = answers_from_wire(&WireResponse {
        model: "jev".to_string(),
        answers,
    });
    assert_eq!(a.complexity, 500);
    assert_eq!(a.needs_private, 0);
    assert_eq!(a.confidence, 950);
}

#[test]
fn wire_noul_and_confidence_are_clamped() {
    let mut answers = StrMap::new();
    answers.insert("needs_private".to_string(), WireAnswer::Noul { noul: 1500 });
    answers.insert(
        "sensitivity".to_string(),
        WireAnswer::Score {
            score: 300,
            confidence: -200,
        },
    );
    let a = answers_from_wire(&WireResponse {
        model: "jev".to_string(),
        answers,
    });
    assert_eq!(a.needs_private, 1000);
    assert_eq!(a.confidence, 0);
}

#[test]
fn monthly_escalation_keeps_tee_and_reason() {
    let sensitive = Answers::new(300, 1900, 950, 900);
    let mut monthly = MonthlyBudget::new(10).expect("valid budget");
    monthly.record(10);
    let d = route_with_monthly(&state(), &sensitive, 5, 600, &monthly);
    assert_eq!(d.route, Route::HumanReview);
    assert!(d.force_tee);
    assert_eq!(d.reason, "over monthly budget — needs approval");
    // Exactly the remainder is affordable.
    let fresh = MonthlyBudget::new(5).expect("valid budget");
    assert_eq!(route_with_monthly(&state(), &answers(), 5, 600, &fresh).route, Route::DirectLlm);
}
