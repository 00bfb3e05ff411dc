use jear::jev_wire::{WireAnswer, WireQuestion, WireResponse, WireState, JEV_DEFAULT_MODEL};
use jear::live::jev_target;
use jear::near::{Hosting, ModelInfo};
use jear::route::{routed_model, routing_answers, routing_request, Answers};
use jear::strmap::StrMap;

#[test]
fn routing_request_asks_three_questions() {
    let r = routing_request("brief in plain English");
    assert_eq!(r.model, JEV_DEFAULT_MODEL);
    assert_eq!(r.state, WireState::Text("brief in plain English".to_string()));
    assert_eq!(r.questions.len(), 3);
    match r.questions.get("complexity") {
        Some(WireQuestion::Score { instructions, criteria }) => {
            assert_eq!(instructions, "Task complexity");
            assert_eq!(criteria.len(), 3);
            assert_eq!(criteria.get("0").map(|s| s.as_str()), Some("lookup"));
            assert_eq!(criteria.get("1").map(|s| s.as_str()), Some("multi-step"));
            assert_eq!(criteria.get("2").map(|s| s.as_str()), Some("high-stakes"));
        }
        other => panic!("unexpected question: {other:?}"),
    }
    match r.questions.get("sensitivity") {
        Some(WireQuestion::Score { instructions, criteria }) => {
            assert_eq!(instructions, "Data sensitivity");
            assert_eq!(criteria.len(), 2);
            assert_eq!(criteria.get("0").map(|s| s.as_str()), Some("public"));
            assert_eq!(criteria.get("2").map(|s| s.as_str()), Some("secret"));
        }
        other => panic!("unexpected question: {other:?}"),
    }
    match r.questions.get("needs_private") {
        Some(WireQuestion::Noul { instructions }) => {
            assert_eq!(instructions, "Must run in TEE private inference?");
        }
        other => panic!("unexpected question: {other:?}"),
    }
}

#[test]
fn jev_is_asked_only_with_base_and_key() {
    let some = |s: &str| Some(s.to_string());
    assert_eq!(
        jev_target(some("https://jev.test"), some("k")),
        Some(("https://jev.test".to_string(), "k".to_string()))
    );
    assert!(jev_target(None, some("k")).is_none());
    assert!(jev_target(some("https://jev.test"), None).is_none());
    assert!(jev_target(some(" "), some("k")).is_none());
    assert!(jev_target(some("https://jev.test"), some("\t")).is_none());
}

#[test]
fn offline_answers_when_jev_is_silent() {
    assert_eq!(routing_answers(None), Answers::new(300, 200, 100, 900));
    let mut answers = StrMap::new();
    answers.insert("complexity".to_string(), WireAnswer::Score { score: 1500, confidence: 700 });
    answers.insert("sensitivity".to_string(), WireAnswer::Score { score: 100, confidence: 950 });
    answers.insert("needs_private".to_string(), WireAnswer::Noul { noul: 850 });
    let resp = WireResponse { model: "jev-1.13.0".to_string(), answers };
    assert_eq!(routing_answers(Some(&resp)), Answers::new(1500, 100, 850, 700));
}

#[test]
fn routed_model_falls_back_to_tee_default() {
    assert_eq!(routed_model(&[]), "zai-org/GLM-5.1-FP8");
    let m = ModelInfo::new("openai/gpt-5", Hosting::Proxied, true);
    assert_eq!(routed_model(&[&m]), "openai/gpt-5");
}
