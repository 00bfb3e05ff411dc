//! NEAR AI Cloud types: the OpenAI-compatible endpoint, privacy tiers of
//! hosting, and safe key handling.
use vstd::prelude::*;
use crate::text::{blank, is_blank};

verus! {

/// Base URL for all NEAR AI Cloud REST calls.
pub const CLOUD_BASE_URL: &'static str = "https://cloud-api.near.ai/v1";

/// Chat completions path (primary inference endpoint).
pub const CHAT_COMPLETIONS_PATH: &'static str = "/chat/completions";

/// Models list path (catalog with pricing + features).
pub const MODELS_PATH: &'static str = "/models";

/// Where a model executes, which determines privacy guarantees.
#[derive(Debug, Clone, Copy, PartialEq, Eq, Structural)]
pub enum Hosting {
    /// Runs on the NEAR GPU fleet in a TEE (Intel TDX + NVIDIA TEE), with
    /// attestation; nobody, not even NEAR, can see prompts or outputs.
    Tee,
    /// Reaches an upstream provider through an anonymizing gateway.
    Anonymized,
    /// Proxied to an upstream provider; TEE guarantees do not extend.
    Proxied,
}

impl Hosting {
    /// The privacy rank of a tier: 2 for TEE, 1 anonymized, 0 proxied.
    pub open spec fn rank(self) -> u8 {
        match self {
            Hosting::Tee => 2,
            Hosting::Anonymized => 1,
            Hosting::Proxied => 0,
        }
    }

    /// The privacy rank of this tier (2 = TEE, 1 = anonymized, 0 = proxied).
    pub fn privacy_rank(&self) -> (r: u8)
        ensures
            r == self.rank(),
    {
        match self {
            Hosting::Tee => 2,
            Hosting::Anonymized => 1,
            Hosting::Proxied => 0,
        }
    }
}

/// A model entry from the catalog (the subset routing uses).
#[derive(Debug, Clone, PartialEq, Eq)]
pub struct ModelInfo {
    /// Model id, e.g. "zai-org/GLM-5.1-FP8".
    pub id: String,
    /// Where it runs.
    pub hosting: Hosting,
    /// Supports tool calling.
    pub supports_tools: bool,
}

impl ModelInfo {
    /// The model meets a minimum privacy rank.
    pub open spec fn meets(self, minimum: u8) -> bool {
        self.hosting.rank() >= minimum
    }

    /// Build a catalog entry.
    pub fn new(id: &str, hosting: Hosting, supports_tools: bool) -> (m: Self)
        ensures
            m.id@ == id@,
            m.hosting == hosting,
            m.supports_tools == supports_tools,
    {
        ModelInfo { id: String::from_str(id), hosting, supports_tools }
    }

    /// True when safe for sensitive state (TEE only).
    pub fn is_private(&self) -> (r: bool)
        ensures
            r == (self.hosting == Hosting::Tee),
    {
        self.hosting == Hosting::Tee
    }

    /// True when the model's tier reaches the minimum privacy rank.
    pub fn meets_privacy(&self, minimum: u8) -> (r: bool)
        ensures
            r == self.meets(minimum),
    {
        self.hosting.privacy_rank() >= minimum
    }
}

/// The top rank is held by TEE models alone, and every model meets rank 0.
pub proof fn law_privacy_ranks(m: ModelInfo)
    ensures
        m.meets(2) <==> m.hosting == Hosting::Tee,
        m.meets(0),
        m.meets(2) ==> m.meets(1),
{
}

/// API key wrapper; it is never printed, only its redacted form.
#[derive(Clone, PartialEq, Eq)]
pub struct ApiKey(String);

impl ApiKey {
    /// The raw key.
    pub closed spec fn secret(self) -> Seq<char> {
        self.0@
    }

    /// Wrap a raw `sk-...` key; blank keys are rejected.
    pub fn new(key: &str) -> (r: Option<Self>)
        ensures
            r is None <==> blank(key@),
            r matches Some(k) ==> k.secret() == key@,
    {
        if is_blank(key) {
            return None;
        }
        Some(ApiKey(String::from_str(key)))
    }

    /// What the key shows when printed for debugging: never the key itself.
    pub fn debug_text(&self) -> (r: String)
        ensures
            r@ == "ApiKey(redacted)"@,
    {
        String::from_str("ApiKey(redacted)")
    }
}

} // verus!
