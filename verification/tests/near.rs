use jear::near::{ApiKey, Hosting, ModelInfo, CHAT_COMPLETIONS_PATH, CLOUD_BASE_URL, MODELS_PATH};

#[test]
fn tee_model_is_private() {
    let m = ModelInfo::new("zai-org/GLM-5.1-FP8", Hosting::Tee, true);
    assert!(m.is_private());
}

#[test]
fn proxied_model_is_not_private() {
    let m = ModelInfo::new("openai/gpt-5", Hosting::Proxied, true);
    assert!(!m.is_private());
}

#[test]
fn api_key_rejects_empty_and_redacts() {
    assert!(ApiKey::new("").is_none());
    assert!(ApiKey::new("   ").is_none());
    let k = ApiKey::new("sk-test").expect("valid key");
    assert_eq!(k.debug_text(), "ApiKey(redacted)");
}

#[test]
fn endpoints_are_stable() {
    assert_eq!(CLOUD_BASE_URL, "https://cloud-api.near.ai/v1");
    assert_eq!(CHAT_COMPLETIONS_PATH, "/chat/completions");
    assert_eq!(MODELS_PATH, "/models");
}

#[test]
fn privacy_ranks_order_tiers() {
    assert_eq!(Hosting::Tee.privacy_rank(), 2);
    assert_eq!(Hosting::Anonymized.privacy_rank(), 1);
    assert_eq!(Hosting::Proxied.privacy_rank(), 0);
    let anon = ModelInfo::new("anon-model", Hosting::Anonymized, true);
    assert!(!anon.is_private());
    assert!(anon.meets_privacy(1));
    assert!(!anon.meets_privacy(2));
    assert!(anon.meets_privacy(0));
}
