use jear::ironclaw::{Channel, CostCaps, DeployTarget, VaultRef};

#[test]
fn caps_reject_inverted_limits() {
    assert!(CostCaps::new(100, 500).is_none());
    let c = CostCaps::new(500, 100).expect("valid caps");
    assert!(c.allows(100));
    assert!(!c.allows(101));
}

#[test]
fn vault_ref_rejects_empty() {
    assert!(VaultRef::new("").is_none());
    let v = VaultRef::new("GMAIL_TOKEN").expect("valid ref");
    assert_eq!(v.name(), "GMAIL_TOKEN");
}

#[test]
fn hub_holds_instance_id() {
    let t = DeployTarget::Hub("abc123".to_string());
    assert!(matches!(t, DeployTarget::Hub(_)));
    assert!(matches!(DeployTarget::Local, DeployTarget::Local));
}

#[test]
fn equal_caps_are_allowed_and_blank_refs_rejected() {
    let c = CostCaps::new(100, 100).expect("equal caps");
    assert_eq!(c.max_daily_cents, 100);
    assert_eq!(c.max_task_cents, 100);
    assert!(VaultRef::new(" \n\t").is_none());
    let v = VaultRef::new(" KEY ").expect("padded ref");
    assert_eq!(v.name(), " KEY ");
    assert_ne!(Channel::Web, Channel::Slack);
}
