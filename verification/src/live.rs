//! Endpoints, keys and the catalog pick for live API calls.
//!
//! Keys come from the environment (`NEAR_API_KEY`, `TYPESAFE_API_KEY`, plus
//! optional base-URL overrides); the environment is read and the network
//! is reached outside this library, which computes what goes into and comes
//! out of those calls.
use vstd::prelude::*;
use crate::attest::ATTESTATION_PATH;
use crate::http::{join, joined};
use crate::jev_wire::JEV_SYSTEMONE_PATH;
use crate::near::{CHAT_COMPLETIONS_PATH, CLOUD_BASE_URL, MODELS_PATH};
use crate::near_wire::ModelEntry;
use crate::text::{
    blank, is_blank, lemma_lex_irreflexive, lemma_lex_total, lemma_lex_transitive, lex_less,
    str_less,
};

verus! {

/// Env var holding the NEAR AI Cloud key (`sk-...`).
pub const NEAR_ENV_KEY: &'static str = "NEAR_API_KEY";

/// Env var holding the TypeSafe (Jev) key.
pub const TYPESAFE_ENV_KEY: &'static str = "TYPESAFE_API_KEY";

/// Optional env override for the NEAR base URL.
pub const NEAR_BASE_ENV: &'static str = "NEAR_BASE_URL";

/// Optional env override for the TypeSafe base URL (no default hardcoded).
pub const TYPESAFE_BASE_ENV: &'static str = "TYPESAFE_BASE_URL";

/// An environment value counts as set when it is present and not blank.
pub open spec fn present(value: Option<String>) -> Option<String> {
    match value {
        Some(v) => if blank(v@) {
            None
        } else {
            Some(v)
        },
        None => None,
    }
}

/// Keep an environment value only when it is present and not blank.
pub fn key_if_present(value: Option<String>) -> (r: Option<String>)
    ensures
        r == present(value),
{
    match value {
        Some(v) => if is_blank(v.as_str()) {
            None
        } else {
            Some(v)
        },
        None => None,
    }
}

/// Where to ask Jev, as (base URL, key): only when both are set, since no
/// Jev host is built in; otherwise routing stays on the offline answers.
pub fn jev_target(base: Option<String>, key: Option<String>) -> (r: Option<(String, String)>)
    ensures
        r matches Some((b, k)) ==> present(base) == Some(b) && present(key) == Some(k),
        r is None <==> (present(base) is None || present(key) is None),
{
    match (key_if_present(base), key_if_present(key)) {
        (Some(b), Some(k)) => Some((b, k)),
        _ => None,
    }
}

/// NEAR base URL: an override that is set wins, else the documented default.
pub fn near_base(env_override: Option<String>) -> (r: String)
    ensures
        r@ == (match present(env_override) {
            Some(v) => v@,
            None => CLOUD_BASE_URL@,
        }),
{
    match key_if_present(env_override) {
        Some(v) => v,
        None => String::from_str(CLOUD_BASE_URL),
    }
}

/// Full Jev evaluate URL from an explicit base.
pub fn jev_url(base: &str) -> (r: String)
    ensures
        r@ == joined(base@, JEV_SYSTEMONE_PATH@),
{
    join(base, JEV_SYSTEMONE_PATH)
}

/// Full NEAR models URL from a base.
pub fn models_url(base: &str) -> (r: String)
    ensures
        r@ == joined(base@, MODELS_PATH@),
{
    join(base, MODELS_PATH)
}

/// Full NEAR chat URL from a base.
pub fn near_url(base: &str) -> (r: String)
    ensures
        r@ == joined(base@, CHAT_COMPLETIONS_PATH@),
{
    join(base, CHAT_COMPLETIONS_PATH)
}

/// Full attestation report URL from a base.
pub fn attestation_url(base: &str) -> (r: String)
    ensures
        r@ == joined(base@, ATTESTATION_PATH@),
{
    join(base, ATTESTATION_PATH)
}

/// The attestation report URL carrying a nonce as its query.
pub fn attestation_report_url(base: &str, nonce: &str) -> (r: String)
    ensures
        r@ == joined(base@, ATTESTATION_PATH@) + "?nonce="@ + nonce@,
{
    let mut url = attestation_url(base);
    url.append("?nonce=");
    url.append(nonce);
    url
}

/// The catalog entry at `k` has a price for the plan.
pub open spec fn priced(models: Seq<ModelEntry>, k: int, i: u64, o: u64) -> bool {
    models[k].cents_for(i, o) is Some
}

/// The cents of the catalog entry at `k` for the plan.
pub open spec fn cents_at(models: Seq<ModelEntry>, k: int, i: u64, o: u64) -> u64 {
    models[k].cents_for(i, o)->0
}

/// `k` is the first of the cheapest priced entries.
pub open spec fn cheapest_at(models: Seq<ModelEntry>, k: int, i: u64, o: u64) -> bool {
    &&& 0 <= k < models.len()
    &&& priced(models, k, i, o)
    &&& forall|j: int|
        0 <= j < models.len() && priced(models, j, i, o) ==> cents_at(models, k, i, o) <= cents_at(
            models,
            j,
            i,
            o,
        )
    &&& forall|j: int|
        0 <= j < k && priced(models, j, i, o) ==> cents_at(models, k, i, o) < cents_at(
            models,
            j,
            i,
            o,
        )
}

/// Cheapest catalog entry for a token plan (the first of equals), or `None`
/// when none is priced. This is the live "best economical model" pick.
pub fn cheapest<'a>(models: &'a [ModelEntry], in_tokens: u64, out_tokens: u64) -> (r: Option<
    &'a ModelEntry,
>)
    ensures
        r is None <==> forall|j: int| 0 <= j < models@.len() ==> !priced(models@, j, in_tokens, out_tokens),
        r matches Some(e) ==> exists|k: int|
            cheapest_at(models@, k, in_tokens, out_tokens) && *e == models@[k],
{
    let n = models.len();
    let mut best: Option<(usize, u64)> = None;
    let mut i: usize = 0;
    while i < n
        invariant
            n == models@.len(),
            i <= n,
            best is None ==> forall|j: int| 0 <= j < i ==> !priced(models@, j, in_tokens, out_tokens),
            best matches Some(bc) ==> {
                &&& bc.0 < i
                &&& priced(models@, bc.0 as int, in_tokens, out_tokens)
                &&& bc.1 == cents_at(models@, bc.0 as int, in_tokens, out_tokens)
                &&& forall|j: int|
                    0 <= j < i && priced(models@, j, in_tokens, out_tokens) ==> bc.1 <= cents_at(
                        models@,
                        j,
                        in_tokens,
                        out_tokens,
                    )
                &&& forall|j: int|
                    0 <= j < bc.0 && priced(models@, j, in_tokens, out_tokens) ==> bc.1 < cents_at(
                        models@,
                        j,
                        in_tokens,
                        out_tokens,
                    )
            },
        decreases n - i,
    {
        match models[i].estimated_cents(in_tokens, out_tokens) {
            Some(c) => {
                match best {
                    Some(bc) => {
                        if c < bc.1 {
                            best = Some((i, c));
                        }
                    },
                    None => {
                        best = Some((i, c));
                    },
                }
            },
            None => {},
        }
        i = i + 1;
    }
    match best {
        Some(bc) => Some(&models[bc.0]),
        None => None,
    }
}

/// Capability score for quality-aware picks: reasoning counts most, then
/// tools, then a context window over 64k tokens.
pub open spec fn capability_of(e: ModelEntry) -> u64 {
    ((if e.supports_reasoning {
        4int
    } else {
        0int
    }) + (if e.supports_tools {
        2int
    } else {
        0int
    }) + (if (match e.context_length {
        Some(c) => c,
        None => 0,
    }) > 64_000 {
        1int
    } else {
        0int
    })) as u64
}

/// Capability score for quality-aware picks: reasoning counts most, then
/// tools, then a roomy context window.
pub fn capability(entry: &ModelEntry) -> (r: u64)
    ensures
        r == capability_of(*entry),
        r <= 7,
{
    let reasoning: u64 = if entry.supports_reasoning {
        4
    } else {
        0
    };
    let tools: u64 = if entry.supports_tools {
        2
    } else {
        0
    };
    let context: u64 = match entry.context_length {
        Some(c) => if c > 64_000 {
            1
        } else {
            0
        },
        None => 0,
    };
    reasoning + tools + context
}

/// Entry `a` is a strictly better pick than `b` for the plan: cheaper; or as
/// cheap and more capable; or as cheap, as capable and earlier by id.
pub open spec fn better(a: ModelEntry, b: ModelEntry, i: u64, o: u64) -> bool {
    let ca = a.cents_for(i, o)->0;
    let cb = b.cents_for(i, o)->0;
    ||| ca < cb
    ||| ca == cb && capability_of(a) > capability_of(b)
    ||| ca == cb && capability_of(a) == capability_of(b) && lex_less(a.id@, b.id@)
}

/// `k` is the best priced entry, and the first of any that are as good.
pub open spec fn best_at(models: Seq<ModelEntry>, k: int, i: u64, o: u64) -> bool {
    &&& 0 <= k < models.len()
    &&& priced(models, k, i, o)
    &&& forall|j: int|
        0 <= j < models.len() && priced(models, j, i, o) ==> !better(models[j], models[k], i, o)
    &&& forall|j: int|
        0 <= j < k && priced(models, j, i, o) ==> better(models[k], models[j], i, o)
}

proof fn lemma_better_transitive(a: ModelEntry, b: ModelEntry, c: ModelEntry, i: u64, o: u64)
    requires
        better(a, b, i, o),
        better(b, c, i, o),
    ensures
        better(a, c, i, o),
{
    if a.cents_for(i, o)->0 == b.cents_for(i, o)->0 && b.cents_for(i, o)->0 == c.cents_for(
        i,
        o,
    )->0 && capability_of(a) == capability_of(b) && capability_of(b) == capability_of(c) {
        lemma_lex_transitive(a.id@, b.id@, c.id@);
    }
}

proof fn lemma_better_total(a: ModelEntry, b: ModelEntry, i: u64, o: u64)
    requires
        !better(a, b, i, o),
    ensures
        better(b, a, i, o) || (a.cents_for(i, o)->0 == b.cents_for(i, o)->0 && capability_of(a)
            == capability_of(b) && a.id@ == b.id@),
{
    if a.id@ != b.id@ {
        lemma_lex_total(a.id@, b.id@);
    }
}

/// True when `a` is a strictly better pick than `b` (both priced at `ca`, `cb`).
fn is_better(a: &ModelEntry, ca: u64, b: &ModelEntry, cb: u64, i: Ghost<u64>, o: Ghost<u64>) -> (r:
    bool)
    requires
        a.cents_for(i@, o@) == Some(ca),
        b.cents_for(i@, o@) == Some(cb),
    ensures
        r == better(*a, *b, i@, o@),
{
    if ca < cb {
        return true;
    }
    if ca > cb {
        return false;
    }
    let pa = capability(a);
    let pb = capability(b);
    if pa > pb {
        return true;
    }
    if pa < pb {
        return false;
    }
    str_less(a.id.as_str(), b.id.as_str())
}

/// Best economical entry: cheapest price wins, ties break toward stronger
/// models (reasoning, tools, large context), then toward the smaller id;
/// among entries alike in all three the first wins. `None` when nothing is
/// priced.
pub fn pick_best<'a>(models: &'a [ModelEntry], in_tokens: u64, out_tokens: u64) -> (r: Option<
    &'a ModelEntry,
>)
    ensures
        r is None <==> forall|j: int| 0 <= j < models@.len() ==> !priced(models@, j, in_tokens, out_tokens),
        r matches Some(e) ==> exists|k: int| best_at(models@, k, in_tokens, out_tokens) && *e == models@[k],
{
    let n = models.len();
    let mut best: Option<(usize, u64)> = None;
    let mut i: usize = 0;
    while i < n
        invariant
            n == models@.len(),
            i <= n,
            best is None ==> forall|j: int| 0 <= j < i ==> !priced(models@, j, in_tokens, out_tokens),
            best matches Some(bc) ==> {
                &&& bc.0 < i
                &&& priced(models@, bc.0 as int, in_tokens, out_tokens)
                &&& bc.1 == cents_at(models@, bc.0 as int, in_tokens, out_tokens)
                &&& forall|j: int|
                    0 <= j < i && priced(models@, j, in_tokens, out_tokens) ==> !better(
                        models@[j],
                        models@[bc.0 as int],
                        in_tokens,
                        out_tokens,
                    )
                &&& forall|j: int|
                    0 <= j < bc.0 && priced(models@, j, in_tokens, out_tokens) ==> better(
                        models@[bc.0 as int],
                        models@[j],
                        in_tokens,
                        out_tokens,
                    )
            },
        decreases n - i,
    {
        match models[i].estimated_cents(in_tokens, out_tokens) {
            Some(c) => {
                match best {
                    Some(bc) => {
                        if is_better(
                            &models[i],
                            c,
                            &models[bc.0],
                            bc.1,
                            Ghost(in_tokens),
                            Ghost(out_tokens),
                        ) {
                            proof {
                                let mi = models@[i as int];
                                let mb = models@[bc.0 as int];
                                assert forall|j: int|
                                    0 <= j < i + 1 && priced(
                                        models@,
                                        j,
                                        in_tokens,
                                        out_tokens,
                                    ) implies !better(models@[j], mi, in_tokens, out_tokens) by {
                                    if j == i {
                                        lemma_lex_irreflexive(mi.id@);
                                    } else if better(models@[j], mi, in_tokens, out_tokens) {
                                        lemma_better_transitive(
                                            models@[j],
                                            mi,
                                            mb,
                                            in_tokens,
                                            out_tokens,
                                        );
                                    }
                                }
                                assert forall|j: int|
                                    0 <= j < i && priced(
                                        models@,
                                        j,
                                        in_tokens,
                                        out_tokens,
                                    ) implies better(mi, models@[j], in_tokens, out_tokens) by {
                                    lemma_better_total(models@[j], mb, in_tokens, out_tokens);
                                    if better(mb, models@[j], in_tokens, out_tokens) {
                                        lemma_better_transitive(
                                            mi,
                                            mb,
                                            models@[j],
                                            in_tokens,
                                            out_tokens,
                                        );
                                    }
                                }
                            }
                            best = Some((i, c));
                        }
                    },
                    None => {
                        proof {
                            lemma_lex_irreflexive(models@[i as int].id@);
                        }
                        best = Some((i, c));
                    },
                }
            },
            None => {},
        }
        i = i + 1;
    }
    match best {
        Some(bc) => Some(&models[bc.0]),
        None => None,
    }
}

/// The best pick costs no more than the cheapest pick: both are priced at
/// the least price of the catalog, and one exists exactly when the other does.
pub proof fn law_best_costs_the_least(models: Seq<ModelEntry>, a: int, b: int, i: u64, o: u64)
    requires
        cheapest_at(models, a, i, o),
        best_at(models, b, i, o),
    ensures
        cents_at(models, a, i, o) == cents_at(models, b, i, o),
{
}

} // verus!

verus! {

/// Reasoning counts most: each feature adds its own weight whatever the
/// others are (reasoning 4, tools 2, a context window over 64k tokens 1), and
/// an entry with none of them scores 0. So reasoning alone outweighs tools
/// plus a large context window.
pub proof fn law_capability_weights(e: ModelEntry)
    ensures
        capability_of(ModelEntry { supports_reasoning: true, ..e }) == capability_of(
            ModelEntry { supports_reasoning: false, ..e },
        ) + 4,
        capability_of(ModelEntry { supports_tools: true, ..e }) == capability_of(
            ModelEntry { supports_tools: false, ..e },
        ) + 2,
        capability_of(ModelEntry { context_length: Some(64_001), ..e }) == capability_of(
            ModelEntry { context_length: None, ..e },
        ) + 1,
        capability_of(ModelEntry { context_length: Some(64_000), ..e }) == capability_of(
            ModelEntry { context_length: None, ..e },
        ),
        capability_of(
            ModelEntry {
                supports_reasoning: false,
                supports_tools: false,
                context_length: None,
                ..e
            },
        ) == 0,
{
}

/// At equal price, a reasoning model is a better pick than one without
/// reasoning, whatever tools or context either has; at equal price and
/// reasoning, a tool-calling model beats one without tools.
pub proof fn law_reasoning_breaks_price_ties(a: ModelEntry, b: ModelEntry, i: u64, o: u64)
    requires
        a.cents_for(i, o) is Some,
        b.cents_for(i, o) is Some,
        a.cents_for(i, o) == b.cents_for(i, o),
    ensures
        a.supports_reasoning && !b.supports_reasoning ==> better(a, b, i, o) && !better(b, a, i, o),
        a.supports_reasoning == b.supports_reasoning && a.supports_tools && !b.supports_tools
            ==> better(a, b, i, o) && !better(b, a, i, o),
{
}

} // verus!
