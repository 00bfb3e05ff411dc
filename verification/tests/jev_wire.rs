use jear::jev_wire::{WireQuestion, WireRequest, WireState, JEV_DEFAULT_MODEL, JEV_SYSTEMONE_PATH};
use jear::strmap::StrMap;

#[test]
fn constants_match_docs() {
    assert_eq!(JEV_DEFAULT_MODEL, "jev-latest");
    assert_eq!(JEV_SYSTEMONE_PATH, "/v1/systemone");
}

#[test]
fn request_carries_text_state_and_questions() {
    let mut criteria = StrMap::new();
    criteria.insert("billing".to_string(), "Payments, refunds".to_string());
    criteria.insert("technical".to_string(), "Bugs, outages".to_string());
    let mut questions = StrMap::new();
    questions.insert(
        "department".to_string(),
        WireQuestion::Choice {
            instructions: "Which team should handle this?".to_string(),
            criteria,
        },
    );
    let r = WireRequest::new("jev-latest", "Payouts failing for 3 days", questions);
    assert_eq!(r.model, "jev-latest");
    assert_eq!(r.state, WireState::Text("Payouts failing for 3 days".to_string()));
    match r.questions.get("department") {
        Some(WireQuestion::Choice { criteria, .. }) => {
            assert_eq!(
                criteria.get("technical").map(|s| s.as_str()),
                Some("Bugs, outages")
            );
        }
        other => panic!("unexpected question: {other:?}"),
    }
}
