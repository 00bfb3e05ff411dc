use jear::jev::{clamp01, should_escalate, State, UNIT};

#[test]
fn state_holds_text_and_budget() {
    let s = State::new("summarize emails", 50);
    assert_eq!(s.text, "summarize emails");
    assert_eq!(s.budget_cents, 50);
}

#[test]
fn escalate_when_low_confidence() {
    assert!(should_escalate(400, 600));
    assert!(!should_escalate(820, 600));
}

#[test]
fn clamp_keeps_unit_range() {
    assert_eq!(clamp01(-500), 0);
    assert_eq!(clamp01(1500), 1000);
    assert_eq!(clamp01(850), 850);
}

#[test]
fn clamp_edges() {
    assert_eq!(UNIT, 1000);
    assert_eq!(clamp01(0), 0);
    assert_eq!(clamp01(UNIT), UNIT);
    assert_eq!(clamp01(i64::MIN), 0);
    assert_eq!(clamp01(i64::MAX), UNIT);
    assert!(!should_escalate(600, 600));
}
