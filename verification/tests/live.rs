use jear::live::{
    attestation_report_url, attestation_url, capability, cheapest, jev_url, key_if_present,
    models_url, near_base, near_url, pick_best,
};
use jear::near::CLOUD_BASE_URL;
use jear::near_wire::ModelEntry;

fn entry(
    id: &str,
    context: Option<u64>,
    input: u64,
    output: u64,
    tools: bool,
    reasoning: bool,
) -> ModelEntry {
    ModelEntry {
        id: id.to_string(),
        context_length: context,
        max_output_length: None,
        input_price_per_mtok: Some(input),
        output_price_per_mtok: Some(output),
        supports_tools: tools,
        supports_reasoning: reasoning,
    }
}

#[test]
fn urls_join_paths() {
    assert_eq!(
        jev_url("https://example.test"),
        "https://example.test/v1/systemone"
    );
    assert_eq!(
        near_url("https://cloud-api.near.ai/v1/"),
        "https://cloud-api.near.ai/v1/chat/completions"
    );
}

#[test]
fn missing_env_yields_none() {
    assert!(key_if_present(None).is_none());
    assert!(key_if_present(Some("  ".to_string())).is_none());
    assert_eq!(key_if_present(Some("sk-1".to_string())), Some("sk-1".to_string()));
}

#[test]
fn near_base_defaults_to_documented() {
    assert_eq!(near_base(None), CLOUD_BASE_URL);
    assert_eq!(near_base(Some(String::new())), CLOUD_BASE_URL);
    assert_eq!(near_base(Some("https://proxy.test".to_string())), "https://proxy.test");
}

#[test]
fn models_url_joins_path() {
    assert_eq!(
        models_url("https://cloud-api.near.ai/v1/"),
        "https://cloud-api.near.ai/v1/models"
    );
}

#[test]
fn attestation_url_carries_path() {
    assert_eq!(
        attestation_url("https://cloud-api.near.ai/v1/"),
        "https://cloud-api.near.ai/v1/attestation/report"
    );
}

#[test]
fn attestation_report_url_carries_nonce() {
    assert_eq!(
        attestation_report_url("https://cloud-api.near.ai/v1/", "n-1"),
        "https://cloud-api.near.ai/v1/attestation/report?nonce=n-1"
    );
}

#[test]
fn cheapest_picks_lowest_estimate() {
    let cheap = entry("cheap", None, 200_000, 1_000_000, true, false);
    let pricey = entry("pricey", None, 2_000_000, 12_000_000, true, true);
    let models = vec![pricey, cheap];
    let pick = cheapest(&models, 1000, 1000).expect("priced models");
    assert_eq!(pick.id, "cheap");
    assert!(cheapest(&[], 1000, 1000).is_none());
}

#[test]
fn pick_best_breaks_price_ties_by_capability() {
    let plain = entry("plain", Some(8_000), 200_000, 1_000_000, false, false);
    let strong = entry("strong", Some(128_000), 200_000, 1_000_000, true, true);
    let models = vec![plain, strong];
    let pick = pick_best(&models, 1000, 1000).expect("priced models");
    assert_eq!(pick.id, "strong");
    assert!(pick_best(&[], 1000, 1000).is_none());
}

#[test]
fn capability_scores() {
    assert_eq!(capability(&entry("a", None, 1, 1, false, false)), 0);
    assert_eq!(capability(&entry("a", Some(64_000), 1, 1, false, false)), 0);
    assert_eq!(capability(&entry("a", Some(64_001), 1, 1, false, false)), 1);
    assert_eq!(capability(&entry("a", Some(128_000), 1, 1, true, true)), 7);
    assert_eq!(capability(&entry("a", None, 1, 1, true, false)), 2);
}

#[test]
fn ties_break_by_id_then_by_position() {
    let b = entry("b", None, 200_000, 1_000_000, true, false);
    let a = entry("a", None, 200_000, 1_000_000, true, false);
    let models = vec![b.clone(), a];
    assert_eq!(pick_best(&models, 1000, 1000).expect("priced").id, "a");
    // Same price, capability and id: the first entry wins.
    let first = entry("same", None, 200_000, 1_000_000, true, false);
    let mut second = entry("same", None, 200_000, 1_000_000, true, false);
    second.max_output_length = Some(9);
    let models = vec![first, second];
    let pick = pick_best(&models, 1000, 1000).expect("priced");
    assert_eq!(pick.max_output_length, None);
    // cheapest keeps the first of equal prices.
    let models = vec![b, entry("a", None, 200_000, 1_000_000, true, false)];
    assert_eq!(cheapest(&models, 1000, 1000).expect("priced").id, "b");
}

#[test]
fn unpriced_entries_are_skipped() {
    let mut unpriced = entry("free", None, 0, 0, true, true);
    unpriced.output_price_per_mtok = None;
    let priced = entry("paid", None, 2_000_000, 12_000_000, false, false);
    let models = vec![unpriced.clone(), priced];
    assert_eq!(cheapest(&models, 1000, 1000).expect("priced").id, "paid");
    assert_eq!(pick_best(&models, 1000, 1000).expect("priced").id, "paid");
    let only = vec![unpriced];
    assert!(cheapest(&only, 1000, 1000).is_none());
    assert!(pick_best(&only, 1000, 1000).is_none());
}
