//! Orchestrator: Jev answers -> policy -> execution targets.
//!
//! Ties `jev`, `policy`, `near`, `budget`, and `ironclaw` together so callers
//! make one call to route. Scores are in thousandths (see `jev::UNIT`).
use vstd::prelude::*;
use crate::budget::MonthlyBudget;
use crate::ironclaw::CostCaps;
use crate::jev::{clamp01, unit_clamp, State};
use crate::jev_wire::{WireAnswer, WireQuestion, WireRequest, WireResponse, JEV_DEFAULT_MODEL};
use crate::near::ModelInfo;
use crate::policy::{
    complexity_route, decide, decided_reason, decided_route, forces_tee, route_tier, Decision,
    PolicyInput, Route,
};
use crate::strmap::{lemma_pairs_map, StrMap};
use vstd::string::*;

verus! {

/// Distilled Jev outputs for one request, in thousandths.
#[derive(Debug, Clone, Copy, PartialEq, Eq, Structural)]
pub struct Answers {
    /// Task complexity 0 (lookup) .. 2000 (high-stakes).
    pub complexity: i64,
    /// Data sensitivity 0 (public) .. 2000 (secret/regulated).
    pub sensitivity: i64,
    /// `needs_private` probability 0..=1000.
    pub needs_private: i64,
    /// Routing confidence 0..=1000.
    pub confidence: i64,
}

impl Answers {
    /// Build answers, clamping the probability and the confidence into range.
    pub fn new(complexity: i64, sensitivity: i64, needs_private: i64, confidence: i64) -> (a: Self)
        ensures
            a.complexity == complexity,
            a.sensitivity == sensitivity,
            a.needs_private == unit_clamp(needs_private as int),
            a.confidence == unit_clamp(confidence as int),
    {
        Answers {
            complexity,
            sensitivity,
            needs_private: clamp01(needs_private),
            confidence: clamp01(confidence),
        }
    }
}

/// The policy input a request makes.
pub open spec fn policy_input(budget_cents: u64, answers: Answers, estimated_cents: u64) -> PolicyInput {
    PolicyInput {
        complexity: answers.complexity,
        sensitivity: answers.sensitivity,
        needs_private: answers.needs_private,
        confidence: answers.confidence,
        budget_cents,
        estimated_cents,
    }
}

/// Route one request: build policy input from state and answers, then decide.
pub fn route(state: &State, answers: &Answers, estimated_cents: u64, confidence_floor: i64) -> (d:
    Decision)
    ensures
        d.route == decided_route(
            policy_input(state.budget_cents, *answers, estimated_cents),
            confidence_floor,
        ),
        d.force_tee == forces_tee(answers.needs_private as int, answers.sensitivity as int),
        d.reason@ == decided_reason(
            policy_input(state.budget_cents, *answers, estimated_cents),
            confidence_floor,
        ),
{
    let input = PolicyInput {
        complexity: answers.complexity,
        sensitivity: answers.sensitivity,
        needs_private: answers.needs_private,
        confidence: answers.confidence,
        budget_cents: state.budget_cents,
        estimated_cents,
    };
    decide(&input, confidence_floor)
}

/// The catalog models that meet a minimum privacy rank, in catalog order.
pub open spec fn eligible(models: Seq<ModelInfo>, minimum: u8) -> Seq<ModelInfo> {
    models.filter(|m: ModelInfo| m.meets(minimum))
}

/// Filter a model catalog to what a decision allows.
/// When `force_tee` is set, only TEE-hosted models remain.
pub fn eligible_models<'a>(models: &'a [ModelInfo], decision: &Decision) -> (r: Vec<&'a ModelInfo>)
    ensures
        r@.map_values(|m: &ModelInfo| *m) == eligible(
            models@,
            if decision.force_tee {
                2u8
            } else {
                0u8
            },
        ),
{
    let minimum: u8 = if decision.force_tee {
        2
    } else {
        0
    };
    eligible_models_for(models, minimum)
}

/// Filter a model catalog by minimum privacy rank
/// (2 = TEE only, 1 = TEE or anonymized gateway, 0 = any).
pub fn eligible_models_for<'a>(models: &'a [ModelInfo], minimum: u8) -> (r: Vec<&'a ModelInfo>)
    ensures
        r@.map_values(|m: &ModelInfo| *m) == eligible(models@, minimum),
{
    let mut r: Vec<&'a ModelInfo> = Vec::new();
    let n = models.len();
    let mut i: usize = 0;
    while i < n
        invariant
            n == models@.len(),
            i <= n,
            r@.map_values(|m: &ModelInfo| *m) == eligible(models@.take(i as int), minimum),
        decreases n - i,
    {
        let ghost before = r@.map_values(|m: &ModelInfo| *m);
        proof {
            reveal(Seq::filter);
        }
        assert(models@.take(i + 1).drop_last() =~= models@.take(i as int));
        assert(models@.take(i + 1).last() == models@[i as int]);
        if models[i].meets_privacy(minimum) {
            r.push(&models[i]);
            assert(r@.map_values(|m: &ModelInfo| *m) =~= before.push(models@[i as int]));
        } else {
            assert(r@.map_values(|m: &ModelInfo| *m) =~= before);
        }
        i = i + 1;
    }
    assert(models@.take(n as int) =~= models@);
    r
}

/// A filter that keeps everything keeps the list as it is.
proof fn lemma_filter_all(models: Seq<ModelInfo>)
    ensures
        eligible(models, 0) == models,
    decreases models.len(),
{
    reveal(Seq::filter);
    if models.len() > 0 {
        lemma_filter_all(models.drop_last());
        assert(models.drop_last().push(models.last()) =~= models);
    }
}

/// Privacy tiers nest: what meets a stricter rank also meets a looser one,
/// rank 0 keeps the whole catalog, and rank 2 keeps TEE models only.
pub proof fn law_privacy_tiers_nest(models: Seq<ModelInfo>, lo: u8, hi: u8, m: ModelInfo)
    requires
        lo <= hi,
    ensures
        eligible(models, hi).contains(m) ==> eligible(models, lo).contains(m),
        eligible(models, 0) == models,
        eligible(models, 2).contains(m) ==> m.hosting == crate::near::Hosting::Tee,
{
    broadcast use vstd::seq_lib::group_filter_ensures;

    lemma_filter_all(models);
    if eligible(models, hi).contains(m) {
        models.lemma_filter_contains_rev(|x: ModelInfo| x.meets(hi), m);
        let k = choose|k: int| 0 <= k < eligible(models, hi).len() && eligible(models, hi)[k] == m;
        models.lemma_filter_pred(|x: ModelInfo| x.meets(hi), k);
        let j = choose|j: int| 0 <= j < models.len() && models[j] == m;
        models.lemma_filter_contains(|x: ModelInfo| x.meets(lo), j);
    }
    if eligible(models, 2).contains(m) {
        let k = choose|k: int| 0 <= k < eligible(models, 2).len() && eligible(models, 2)[k] == m;
        models.lemma_filter_pred(|x: ModelInfo| x.meets(2), k);
    }
}

/// Check IronClaw spend caps for an estimate.
pub fn within_caps(caps: &CostCaps, estimated_cents: u64) -> (r: bool)
    ensures
        r == (estimated_cents <= caps.max_task_cents),
{
    caps.allows(estimated_cents)
}

/// The score a response gives under `key`, or `default` when there is no
/// `Score` answer under it.
pub open spec fn score_of(m: Map<Seq<char>, WireAnswer>, key: Seq<char>, default: i64) -> i64 {
    if m.contains_key(key) {
        match m[key] {
            WireAnswer::Score { score, .. } => score,
            _ => default,
        }
    } else {
        default
    }
}

/// The clamped `Noul` probability a response gives under `key`, or 0.
pub open spec fn noul_of(m: Map<Seq<char>, WireAnswer>, key: Seq<char>) -> int {
    if m.contains_key(key) {
        match m[key] {
            WireAnswer::Noul { noul } => unit_clamp(noul as int),
            _ => 0,
        }
    } else {
        0
    }
}

/// The confidence an answer carries: `Choice` and `Score` carry one.
pub open spec fn rated(a: WireAnswer) -> Option<i64> {
    match a {
        WireAnswer::Choice { confidence, .. } => Some(confidence),
        WireAnswer::Score { confidence, .. } => Some(confidence),
        WireAnswer::Noul { .. } => None,
    }
}

/// `c` is the least confidence that some answer of `m` carries.
pub open spec fn least_rated(m: Map<Seq<char>, WireAnswer>, c: i64) -> bool {
    &&& exists|k: Seq<char>| m.contains_key(k) && #[trigger] rated(m[k]) == Some(c)
    &&& forall|k: Seq<char>|
        m.contains_key(k) && (#[trigger] rated(m[k])) is Some ==> c <= rated(m[k])->0
}

/// The routing confidence of a response: the least confidence of its
/// `Choice`/`Score` answers clamped into range, or 0.5 when there is none.
pub open spec fn wire_confidence(m: Map<Seq<char>, WireAnswer>) -> int {
    if exists|c: i64| least_rated(m, c) {
        unit_clamp((choose|c: i64| least_rated(m, c)) as int)
    } else {
        500
    }
}

/// Build routing `Answers` from a Jev `WireResponse`.
/// Looks up the `complexity`/`sensitivity` scores and the `needs_private`
/// noul; confidence is the minimum of any Choice/Score confidences
/// (0.5 when none present). Missing values fall back to safe defaults:
/// complexity 0.5, sensitivity 0, needs_private 0.
pub fn answers_from_wire(resp: &WireResponse) -> (a: Answers)
    ensures
        a == wire_answers(resp.answers@),
        a.complexity == score_of(resp.answers@, "complexity"@, 500),
        a.sensitivity == score_of(resp.answers@, "sensitivity"@, 0),
        a.needs_private == noul_of(resp.answers@, "needs_private"@),
        a.confidence == wire_confidence(resp.answers@),
{
    let complexity: i64 = match resp.answers.get("complexity") {
        Some(WireAnswer::Score { score, .. }) => *score,
        _ => 500,
    };
    let sensitivity: i64 = match resp.answers.get("sensitivity") {
        Some(WireAnswer::Score { score, .. }) => *score,
        _ => 0,
    };
    let needs_private: i64 = match resp.answers.get("needs_private") {
        Some(WireAnswer::Noul { noul }) => clamp01(*noul),
        _ => 0,
    };
    let n = resp.answers.len();
    let ghost p = resp.answers.pairs();
    let mut least: Option<i64> = None;
    let mut i: usize = 0;
    while i < n
        invariant
            n == p.len(),
            p == resp.answers.pairs(),
            i <= n,
            least is None ==> forall|j: int| 0 <= j < i ==> (#[trigger] rated(p[j].1)) is None,
            least matches Some(c) ==> exists|j: int| 0 <= j < i && #[trigger] rated(p[j].1) == Some(c),
            least matches Some(c) ==> forall|j: int|
                0 <= j < i && (#[trigger] rated(p[j].1)) is Some ==> c <= rated(p[j].1)->0,
        decreases n - i,
    {
        let c: Option<i64> = match resp.answers.value_at(i) {
            WireAnswer::Choice { confidence, .. } => Some(*confidence),
            WireAnswer::Score { confidence, .. } => Some(*confidence),
            WireAnswer::Noul { .. } => None,
        };
        assert(c == rated(p[i as int].1));
        match c {
            Some(v) => {
                match least {
                    Some(l) => {
                        if v < l {
                            least = Some(v);
                        }
                    },
                    None => {
                        least = Some(v);
                    },
                }
            },
            None => {},
        }
        i = i + 1;
    }
    let confidence: i64 = match least {
        Some(c) => clamp01(c),
        None => 500,
    };
    proof {
        let m = resp.answers@;
        lemma_pairs_map(p);
        match least {
            Some(c) => {
                let j = choose|j: int| 0 <= j < n && #[trigger] rated(p[j].1) == Some(c);
                assert(m.contains_key(p[j].0) && m[p[j].0] == p[j].1);
                assert(rated(m[p[j].0]) == Some(c));
                assert forall|k: Seq<char>| m.contains_key(k) && (#[trigger] rated(m[k])) is Some implies c
                    <= rated(m[k])->0 by {
                    let t = choose|t: int| 0 <= t < p.len() && #[trigger] p[t].0 == k;
                    assert(m[p[t].0] == p[t].1);
                    assert(rated(p[t].1) is Some);
                }
                assert(least_rated(m, c));
                let d = choose|d: i64| least_rated(m, d);
                let kd = choose|k: Seq<char>| m.contains_key(k) && #[trigger] rated(m[k]) == Some(d);
                assert(c <= d);
                assert(d <= c);
            },
            None => {
                assert forall|c: i64| !least_rated(m, c) by {
                    if least_rated(m, c) {
                        let k = choose|k: Seq<char>| m.contains_key(k) && #[trigger] rated(m[k]) == Some(c);
                        let t = choose|t: int| 0 <= t < p.len() && #[trigger] p[t].0 == k;
                        assert(m[p[t].0] == p[t].1);
                        assert(rated(p[t].1) is None);
                    }
                }
            },
        }
    }
    Answers::new(complexity, sensitivity, needs_private, confidence)
}

/// The answers of a response, as `answers_from_wire` gives them.
pub open spec fn wire_answers(m: Map<Seq<char>, WireAnswer>) -> Answers {
    Answers {
        complexity: score_of(m, "complexity"@, 500),
        sensitivity: score_of(m, "sensitivity"@, 0),
        needs_private: noul_of(m, "needs_private"@) as i64,
        confidence: wire_confidence(m) as i64,
    }
}

/// The answers used when Jev is not asked or does not answer: a simple,
/// public, non-private task at confidence 0.9.
pub open spec fn offline_answers() -> Answers {
    Answers { complexity: 300, sensitivity: 200, needs_private: 100, confidence: 900 }
}

/// The answers routing goes on: those of Jev's response when there is one,
/// else the offline answers.
pub fn routing_answers(resp: Option<&WireResponse>) -> (a: Answers)
    ensures
        a == (match resp {
            Some(r) => wire_answers(r.answers@),
            None => offline_answers(),
        }),
{
    match resp {
        Some(r) => answers_from_wire(r),
        None => Answers::new(300, 200, 100, 900),
    }
}

/// A criteria table by the views of its descriptions.
pub open spec fn text_table(m: Map<Seq<char>, String>) -> Map<Seq<char>, Seq<char>> {
    Map::new(|k: Seq<char>| m.contains_key(k), |k: Seq<char>| m[k]@)
}

/// The keys `answers_from_wire` reads by name.
pub open spec fn answer_keys() -> Set<Seq<char>> {
    set!["complexity"@, "sensitivity"@, "needs_private"@]
}

/// The questions routing asks Jev: a complexity score (0 lookup,
/// 1 multi-step, 2 high-stakes), a sensitivity score (0 public, 2 secret)
/// and whether private TEE inference is needed.
pub open spec fn routing_questions(q: Map<Seq<char>, WireQuestion>) -> bool {
    &&& q.dom() == answer_keys()
    &&& (q["complexity"@] matches WireQuestion::Score { instructions, criteria } && instructions@
        == "Task complexity"@ && text_table(criteria@) == map![
        "0"@ => "lookup"@,
        "1"@ => "multi-step"@,
        "2"@ => "high-stakes"@,
    ])
    &&& (q["sensitivity"@] matches WireQuestion::Score { instructions, criteria } && instructions@
        == "Data sensitivity"@ && text_table(criteria@) == map!["0"@ => "public"@, "2"@ => "secret"@])
    &&& (q["needs_private"@] matches WireQuestion::Noul { instructions } && instructions@
        == "Must run in TEE private inference?"@)
}

/// The request routing sends to Jev about a brief.
pub fn routing_request(brief: &str) -> (r: WireRequest)
    ensures
        r.model@ == JEV_DEFAULT_MODEL@,
        r.state matches crate::jev_wire::WireState::Text(t) && t@ == brief@,
        routing_questions(r.questions@),
{
    proof {
        reveal_strlit("complexity");
        reveal_strlit("sensitivity");
        reveal_strlit("needs_private");
        reveal_strlit("0");
        reveal_strlit("1");
        reveal_strlit("2");
    }
    let mut complexity = StrMap::new();
    complexity.insert(String::from_str("0"), String::from_str("lookup"));
    complexity.insert(String::from_str("1"), String::from_str("multi-step"));
    complexity.insert(String::from_str("2"), String::from_str("high-stakes"));
    assert(text_table(complexity@) =~= map![
        "0"@ => "lookup"@,
        "1"@ => "multi-step"@,
        "2"@ => "high-stakes"@,
    ]);
    let mut sensitivity = StrMap::new();
    sensitivity.insert(String::from_str("0"), String::from_str("public"));
    sensitivity.insert(String::from_str("2"), String::from_str("secret"));
    assert(text_table(sensitivity@) =~= map!["0"@ => "public"@, "2"@ => "secret"@]);
    let qc = WireQuestion::Score {
        instructions: String::from_str("Task complexity"),
        criteria: complexity,
    };
    let qs = WireQuestion::Score {
        instructions: String::from_str("Data sensitivity"),
        criteria: sensitivity,
    };
    let qn = WireQuestion::Noul {
        instructions: String::from_str("Must run in TEE private inference?"),
    };
    let ghost (gc, gs, gn) = (qc, qs, qn);
    let mut questions = StrMap::new();
    questions.insert(String::from_str("complexity"), qc);
    questions.insert(String::from_str("sensitivity"), qs);
    questions.insert(String::from_str("needs_private"), qn);
    assert("complexity"@.len() == 10 && "sensitivity"@.len() == 11 && "needs_private"@.len() == 13);
    assert("complexity"@ != "sensitivity"@ && "complexity"@ != "needs_private"@ && "sensitivity"@
        != "needs_private"@);
    assert(questions@.dom() =~= answer_keys());
    assert(questions@["complexity"@] == gc);
    assert(questions@["sensitivity"@] == gs);
    assert(questions@["needs_private"@] == gn);
    WireRequest::new(JEV_DEFAULT_MODEL, brief, questions)
}

/// A response answers questions when it answers each of them, and nothing
/// else, with an answer of the kind asked.
pub open spec fn answers_questions(m: Map<Seq<char>, WireAnswer>, q: Map<Seq<char>, WireQuestion>) -> bool {
    &&& m.dom() == q.dom()
    &&& forall|k: Seq<char>|
        #[trigger] q.contains_key(k) ==> match (q[k], m[k]) {
            (WireQuestion::Choice { .. }, WireAnswer::Choice { .. }) => true,
            (WireQuestion::Score { .. }, WireAnswer::Score { .. }) => true,
            (WireQuestion::Noul { .. }, WireAnswer::Noul { .. }) => true,
            _ => false,
        }
}

/// The questions routing asks are exactly the keys `answers_from_wire`
/// reads: when Jev answers each of them in kind, no default is used; the
/// scores and the probability come from the answers, and the confidence is
/// the lesser of the two score confidences, clamped.
pub proof fn law_questions_are_what_is_read(
    q: Map<Seq<char>, WireQuestion>,
    m: Map<Seq<char>, WireAnswer>,
)
    requires
        routing_questions(q),
        answers_questions(m, q),
    ensures
        q.dom() == answer_keys(),
        m["complexity"@] matches WireAnswer::Score { score, confidence: cc } && score_of(
            m,
            "complexity"@,
            500,
        ) == score && (m["sensitivity"@] matches WireAnswer::Score { score: s, confidence: cs }
            && score_of(m, "sensitivity"@, 0) == s && wire_confidence(m) == unit_clamp(
            if cc <= cs {
                cc as int
            } else {
                cs as int
            },
        )),
        m["needs_private"@] matches WireAnswer::Noul { noul } && noul_of(m, "needs_private"@)
            == unit_clamp(noul as int),
{
    reveal_strlit("complexity");
    reveal_strlit("sensitivity");
    reveal_strlit("needs_private");
    let kc = "complexity"@;
    let ks = "sensitivity"@;
    let kn = "needs_private"@;
    assert(q.contains_key(kc) && q.contains_key(ks) && q.contains_key(kn));
    assert(m.contains_key(kc) && m.contains_key(ks) && m.contains_key(kn));
    let cc = rated(m[kc])->0;
    let cs = rated(m[ks])->0;
    let c = if cc <= cs {
        cc
    } else {
        cs
    };
    assert(rated(m[kn]) is None);
    assert forall|k: Seq<char>| m.contains_key(k) && (#[trigger] rated(m[k])) is Some implies c
        <= rated(m[k])->0 by {
        assert(answer_keys().contains(k));
    }
    if cc <= cs {
        assert(rated(m[kc]) == Some(c));
    } else {
        assert(rated(m[ks]) == Some(c));
    }
    assert(least_rated(m, c));
    let d = choose|d: i64| least_rated(m, d);
    let kd = choose|k: Seq<char>| m.contains_key(k) && #[trigger] rated(m[k]) == Some(d);
    assert(answer_keys().contains(kd));
    assert(c <= d);
    assert(d <= c);
}

/// The id of the model to run when the catalog gives no pick: the first
/// eligible model, else the documented TEE default.
pub fn routed_model(eligible: &[&ModelInfo]) -> (r: String)
    ensures
        r@ == (if eligible@.len() > 0 {
            eligible@[0].id@
        } else {
            "zai-org/GLM-5.1-FP8"@
        }),
{
    if eligible.len() > 0 {
        eligible[0].id.clone()
    } else {
        String::from_str("zai-org/GLM-5.1-FP8")
    }
}

/// The route `route_with_monthly` picks: human review when the monthly
/// remainder cannot cover the estimate, else what `route` picks.
pub open spec fn monthly_route(
    budget_cents: u64,
    answers: Answers,
    estimated_cents: u64,
    confidence_floor: i64,
    monthly: MonthlyBudget,
) -> Route {
    if estimated_cents <= monthly.left() {
        decided_route(policy_input(budget_cents, answers, estimated_cents), confidence_floor)
    } else {
        Route::HumanReview
    }
}

/// Route with a monthly cap: when the estimate exceeds this month's
/// remainder, escalate for approval instead of picking an agent.
/// The cap is client-controlled; this picks the best *economical* route under it.
pub fn route_with_monthly(
    state: &State,
    answers: &Answers,
    estimated_cents: u64,
    confidence_floor: i64,
    monthly: &MonthlyBudget,
) -> (d: Decision)
    ensures
        d.route == monthly_route(
            state.budget_cents,
            *answers,
            estimated_cents,
            confidence_floor,
            *monthly,
        ),
        d.force_tee == forces_tee(answers.needs_private as int, answers.sensitivity as int),
        d.reason@ == (if estimated_cents <= monthly.left() {
            decided_reason(policy_input(state.budget_cents, *answers, estimated_cents), confidence_floor)
        } else {
            "over monthly budget — needs approval"@
        }),
{
    if !monthly.can_afford(estimated_cents) {
        let tee = answers.needs_private >= 800 || answers.sensitivity >= 1200;
        return Decision {
            route: Route::HumanReview,
            force_tee: tee,
            reason: String::from_str("over monthly budget — needs approval"),
        };
    }
    route(state, answers, estimated_cents, confidence_floor)
}

/// A monthly cap only ever adds scrutiny: whatever `route` sends to a human,
/// `route_with_monthly` does too, and where the month can cover the
/// estimate the two agree.
pub proof fn law_monthly_cap_only_escalates(
    budget_cents: u64,
    answers: Answers,
    estimated_cents: u64,
    confidence_floor: i64,
    monthly: MonthlyBudget,
)
    ensures
        decided_route(policy_input(budget_cents, answers, estimated_cents), confidence_floor)
            == Route::HumanReview ==> monthly_route(
            budget_cents,
            answers,
            estimated_cents,
            confidence_floor,
            monthly,
        ) == Route::HumanReview,
        estimated_cents <= monthly.left() ==> monthly_route(
            budget_cents,
            answers,
            estimated_cents,
            confidence_floor,
            monthly,
        ) == decided_route(policy_input(budget_cents, answers, estimated_cents), confidence_floor),
        estimated_cents > monthly.left() ==> monthly_route(
            budget_cents,
            answers,
            estimated_cents,
            confidence_floor,
            monthly,
        ) == Route::HumanReview,
{
}

/// The token plan (input, output) for a complexity, in the bands of
/// `policy::decide`: lookup, multi-step, high-stakes.
pub open spec fn plan_for(complexity: int) -> (u64, u64) {
    if complexity < 700 {
        (500, 200)
    } else if complexity < 1400 {
        (2_000, 800)
    } else {
        (4_000, 2_000)
    }
}

/// Estimate a token plan from complexity so output price shapes the pick.
pub fn estimate_plan(complexity: i64) -> (r: (u64, u64))
    ensures
        r == plan_for(complexity as int),
{
    if complexity < 700 {
        (500, 200)
    } else if complexity < 1400 {
        (2_000, 800)
    } else {
        (4_000, 2_000)
    }
}

/// Plans grow with complexity, and a plan's band is the band of the agent
/// that `decide` picks for the same complexity.
pub proof fn law_plans_grow_with_complexity(a: int, b: int)
    requires
        a <= b,
    ensures
        plan_for(a).0 <= plan_for(b).0,
        plan_for(a).1 <= plan_for(b).1,
        (plan_for(a) == plan_for(b)) == (route_tier(complexity_route(a)) == route_tier(
            complexity_route(b),
        )),
{
}

} // verus!
