//! NEAR AI Cloud chat wire shapes for `POST /v1/chat/completions`
//! (OpenAI-compatible) and the `GET /v1/models` catalog.
//!
//! Tool definitions and tool calls pass through untouched. The JSON framing
//! of these shapes is done outside this library.
use vstd::prelude::*;
use vstd::arithmetic::div_mod::{
    lemma_div_is_ordered, lemma_fundamental_div_mod, lemma_fundamental_div_mod_converse_div,
};
use vstd::arithmetic::mul::lemma_mul_inequality;

verus! {

/// One chat message; pending tool calls are kept as given, so routing never
/// drops function calls the caller attached.
#[derive(Debug, Clone, PartialEq, Eq)]
pub struct ChatMessage {
    /// Role: `system`, `user`, or `assistant`.
    pub role: String,
    /// Message text.
    pub content: String,
    /// Pending tool calls from the assistant (forwarded verbatim).
    pub tool_calls: Vec<ToolCall>,
}

impl ChatMessage {
    /// Build a user message.
    pub fn user(content: &str) -> (m: Self)
        ensures
            m.role@ == "user"@,
            m.content@ == content@,
            m.tool_calls@.len() == 0,
    {
        ChatMessage {
            role: String::from_str("user"),
            content: String::from_str(content),
            tool_calls: Vec::new(),
        }
    }
}

/// A function tool definition, forwarded verbatim (OpenAI shape).
#[derive(Debug, Clone, PartialEq, Eq)]
pub struct ChatTool {
    /// Always `"function"` for function tools (the JSON `type`).
    pub kind: String,
    /// The function signature.
    pub function: FunctionDef,
}

/// A callable function signature.
#[derive(Debug, Clone, PartialEq, Eq)]
pub struct FunctionDef {
    /// Function name.
    pub name: String,
    /// Human description (optional).
    pub description: Option<String>,
    /// JSON Schema of the parameters, as JSON text (optional).
    pub parameters: Option<String>,
}

/// A pending tool call returned by the assistant, forwarded verbatim.
#[derive(Debug, Clone, PartialEq, Eq)]
pub struct ToolCall {
    /// Call id for pairing with results.
    pub id: String,
    /// Always `"function"` for function calls (the JSON `type`).
    pub kind: String,
    /// The invoked function and its JSON arguments string.
    pub function: CalledFunction,
}

/// An invoked function with raw JSON arguments.
#[derive(Debug, Clone, PartialEq, Eq)]
pub struct CalledFunction {
    /// Function name.
    pub name: String,
    /// JSON-encoded arguments.
    pub arguments: String,
}

/// Chat completions request body (the subset sent).
#[derive(Debug, Clone, PartialEq, Eq)]
pub struct ChatRequest {
    /// Model id, e.g. `zai-org/GLM-5.1-FP8`.
    pub model: String,
    /// Conversation messages.
    pub messages: Vec<ChatMessage>,
    /// Function tools the model may call (forwarded verbatim).
    pub tools: Vec<ChatTool>,
}

impl ChatRequest {
    /// Build a single-turn user request.
    pub fn new(model: &str, content: &str) -> (r: Self)
        ensures
            r.model@ == model@,
            r.messages@.len() == 1,
            r.messages@[0].role@ == "user"@,
            r.messages@[0].content@ == content@,
            r.messages@[0].tool_calls@.len() == 0,
            r.tools@.len() == 0,
    {
        let mut messages = Vec::new();
        messages.push(ChatMessage::user(content));
        ChatRequest { model: String::from_str(model), messages, tools: Vec::new() }
    }

    /// Attach function tools (chainable).
    pub fn with_tools(self, tools: Vec<ChatTool>) -> (r: Self)
        ensures
            r.model == self.model,
            r.messages == self.messages,
            r.tools == tools,
    {
        ChatRequest { model: self.model, messages: self.messages, tools }
    }
}

/// Token usage for budget tracking.
#[derive(Debug, Clone, Copy, PartialEq, Eq, Structural)]
pub struct Usage {
    /// Input tokens billed.
    pub prompt_tokens: u64,
    /// Output tokens billed.
    pub completion_tokens: u64,
    /// Total tokens billed.
    pub total_tokens: u64,
}

/// One completion choice.
#[derive(Debug, Clone, PartialEq, Eq)]
pub struct Choice {
    /// Choice index.
    pub index: u32,
    /// Assistant reply.
    pub message: ChatMessage,
    /// Why generation stopped.
    pub finish_reason: Option<String>,
}

/// Chat completions response body (the subset routing uses).
#[derive(Debug, Clone, PartialEq, Eq)]
pub struct ChatResponse {
    /// Response id.
    pub id: String,
    /// Serving model.
    pub model: String,
    /// Completion choices.
    pub choices: Vec<Choice>,
    /// Token usage (may be absent on some proxies).
    pub usage: Option<Usage>,
}

impl ChatResponse {
    /// First assistant text, if any.
    pub fn first_text(&self) -> (r: Option<&str>)
        ensures
            self.choices@.len() == 0 ==> r is None,
            self.choices@.len() > 0 ==> (r matches Some(t) && t@ == self.choices@[0].message.content@),
    {
        if self.choices.len() > 0 {
            Some(self.choices[0].message.content.as_str())
        } else {
            None
        }
    }
}

/// One catalog entry from `GET /v1/models` (the subset routing uses).
///
/// Prices are in millionths of a US dollar per million tokens, so $0.20 per
/// million tokens is 200_000.
#[derive(Debug, Clone, PartialEq, Eq)]
pub struct ModelEntry {
    /// Model id, e.g. `zai-org/GLM-5.1-FP8`.
    pub id: String,
    /// Context window in tokens, when reported.
    pub context_length: Option<u64>,
    /// Max output tokens, when reported.
    pub max_output_length: Option<u64>,
    /// Price of a million input tokens in millionths of a dollar, when reported.
    pub input_price_per_mtok: Option<u64>,
    /// Price of a million output tokens in millionths of a dollar, when reported.
    pub output_price_per_mtok: Option<u64>,
    /// Tool calling support, when reported.
    pub supports_tools: bool,
    /// Reasoning support, when reported.
    pub supports_reasoning: bool,
}

/// Cents for a token plan at the given prices: the exact cost rounded to the
/// nearest cent, halves upward, held at `u64::MAX`. A price `p` for a million
/// tokens, in millionths of a dollar, makes `n` tokens cost `n * p / 10^10`
/// cents.
pub open spec fn plan_cents(in_tokens: u64, out_tokens: u64, in_price: u64, out_price: u64) -> u64 {
    let cents = (in_tokens * in_price + out_tokens * out_price + 5_000_000_000) / 10_000_000_000;
    if cents <= u64::MAX {
        cents as u64
    } else {
        u64::MAX
    }
}

impl ModelEntry {
    /// The estimate for a token plan, or `None` when either price is missing.
    pub open spec fn cents_for(self, in_tokens: u64, out_tokens: u64) -> Option<u64> {
        match (self.input_price_per_mtok, self.output_price_per_mtok) {
            (Some(i), Some(o)) => Some(plan_cents(in_tokens, out_tokens, i, o)),
            _ => None,
        }
    }

    /// Estimate cost in cents for a token plan, or `None` when unpriced.
    pub fn estimated_cents(&self, in_tokens: u64, out_tokens: u64) -> (r: Option<u64>)
        ensures
            r == self.cents_for(in_tokens, out_tokens),
    {
        match (self.input_price_per_mtok, self.output_price_per_mtok) {
            (Some(i), Some(o)) => Some(cents_at(in_tokens, out_tokens, i, o)),
            _ => None,
        }
    }
}

fn product(x: u64, y: u64) -> (r: u128)
    ensures
        r == x * y,
{
    assert((x as int) * (y as int) <= u128::MAX) by (nonlinear_arith)
        requires
            x <= u64::MAX,
            y <= u64::MAX,
    ;
    (x as u128) * (y as u128)
}

fn cents_at(in_tokens: u64, out_tokens: u64, in_price: u64, out_price: u64) -> (r: u64)
    ensures
        r == plan_cents(in_tokens, out_tokens, in_price, out_price),
{
    let d: u128 = 10_000_000_000;
    let h: u128 = 5_000_000_000;
    let a = product(in_tokens, in_price);
    let b = product(out_tokens, out_price);
    let qa = a / d;
    let ra = a % d;
    let qb = b / d;
    let rb = b % d;
    let x = ra + rb + h;
    proof {
        lemma_fundamental_div_mod(a as int, d as int);
        lemma_fundamental_div_mod(b as int, d as int);
        lemma_fundamental_div_mod(x as int, d as int);
        assert(qa <= a);
        assert(qb <= b);
        let q = qa + qb + x / d;
        assert((a + b + h) as int == q * d + x % d);
        lemma_fundamental_div_mod_converse_div((a + b + h) as int, d as int, q as int, (x % d) as int);
    }
    let c = qa + qb + x / d;
    if c > u64::MAX as u128 {
        u64::MAX
    } else {
        c as u64
    }
}

/// A larger plan, or higher prices, never make an estimate smaller.
pub proof fn law_estimate_grows_with_plan_and_price(
    in_a: u64,
    out_a: u64,
    in_b: u64,
    out_b: u64,
    in_price_a: u64,
    out_price_a: u64,
    in_price_b: u64,
    out_price_b: u64,
)
    requires
        in_a <= in_b,
        out_a <= out_b,
        in_price_a <= in_price_b,
        out_price_a <= out_price_b,
    ensures
        plan_cents(in_a, out_a, in_price_a, out_price_a) <= plan_cents(in_b, out_b, in_price_b, out_price_b),
{
    lemma_mul_inequality(in_a as int, in_b as int, in_price_a as int);
    lemma_mul_inequality(in_price_a as int, in_price_b as int, in_b as int);
    lemma_mul_inequality(out_a as int, out_b as int, out_price_a as int);
    lemma_mul_inequality(out_price_a as int, out_price_b as int, out_b as int);
    assert(in_b * in_price_a == in_price_a * in_b) by (nonlinear_arith);
    assert(out_b * out_price_a == out_price_a * out_b) by (nonlinear_arith);
    assert(in_price_b * in_b == in_b * in_price_b) by (nonlinear_arith);
    assert(out_price_b * out_b == out_b * out_price_b) by (nonlinear_arith);
    let x = in_a * in_price_a + out_a * out_price_a + 5_000_000_000;
    let y = in_b * in_price_b + out_b * out_price_b + 5_000_000_000;
    lemma_div_is_ordered(x, y, 10_000_000_000);
}

/// Catalog response from `GET /v1/models` (list shape).
#[derive(Debug, Clone, PartialEq, Eq)]
pub struct ModelsResponse {
    /// Catalog entries.
    pub data: Vec<ModelEntry>,
}

} // verus!

verus! {

/// The estimate is the exact cost rounded to the nearest cent, halves
/// upward: `n` tokens at price `p` (millionths of a dollar per million
/// tokens) cost `n * p / 10^10` cents, input and output alike and
/// independently, and the cents `c` satisfy
/// `c·10^10 - 5·10^9 <= cost < c·10^10 + 5·10^9`; an estimate too large for
/// a `u64` is `u64::MAX`.
pub proof fn law_estimate_is_rounded_cost(in_tokens: u64, out_tokens: u64, in_price: u64, out_price: u64)
    ensures
        ({
            let cost = in_tokens * in_price + out_tokens * out_price;
            let c = plan_cents(in_tokens, out_tokens, in_price, out_price);
            &&& cost + 5_000_000_000 < (u64::MAX + 1) * 10_000_000_000 ==> c * 10_000_000_000
                <= cost + 5_000_000_000 < c * 10_000_000_000 + 10_000_000_000
            &&& cost + 5_000_000_000 >= (u64::MAX + 1) * 10_000_000_000 ==> c == u64::MAX
        }),
{
    let cost = in_tokens * in_price + out_tokens * out_price;
    let x = cost + 5_000_000_000;
    assert(in_tokens * in_price >= 0 && out_tokens * out_price >= 0) by (nonlinear_arith);
    lemma_fundamental_div_mod(x, 10_000_000_000);
    if x < (u64::MAX + 1) * 10_000_000_000 {
        assert(x / 10_000_000_000 <= u64::MAX);
    } else {
        assert(x / 10_000_000_000 > u64::MAX);
    }
}

/// Each further million output tokens adds exactly the output price of a
/// million tokens, in cents, whatever the input tokens are (when that price
/// is a whole number of cents and the estimate fits in a `u64`).
pub proof fn law_output_tokens_add_linearly(
    in_tokens: u64,
    out_tokens: u64,
    more_out: u64,
    in_price: u64,
    out_price: u64,
)
    requires
        more_out == out_tokens + 1_000_000,
        out_price % 10_000 == 0,
        plan_cents(in_tokens, more_out, in_price, out_price) < u64::MAX,
    ensures
        plan_cents(in_tokens, more_out, in_price, out_price) == plan_cents(
            in_tokens,
            out_tokens,
            in_price,
            out_price,
        ) + out_price / 10_000,
{
    let d: int = 10_000_000_000;
    let x = in_tokens * in_price + out_tokens * out_price + 5_000_000_000;
    let k = out_price / 10_000;
    assert(out_price == k * 10_000);
    assert(more_out * out_price == out_tokens * out_price + 1_000_000 * out_price) by (nonlinear_arith)
        requires
            more_out == out_tokens + 1_000_000,
    ;
    assert(in_tokens * in_price >= 0 && out_tokens * out_price >= 0) by (nonlinear_arith);
    let y = x + k * d;
    assert(in_tokens * in_price + more_out * out_price + 5_000_000_000 == y);
    lemma_fundamental_div_mod(x, d);
    lemma_fundamental_div_mod_converse_div(y, d, x / d + k, x % d);
    assert(x / d <= y / d);
}

/// Each further million input tokens adds exactly the input price of a
/// million tokens, in cents, whatever the output tokens are (when that price
/// is a whole number of cents and the estimate fits in a `u64`).
pub proof fn law_input_tokens_add_linearly(
    in_tokens: u64,
    more_in: u64,
    out_tokens: u64,
    in_price: u64,
    out_price: u64,
)
    requires
        more_in == in_tokens + 1_000_000,
        in_price % 10_000 == 0,
        plan_cents(more_in, out_tokens, in_price, out_price) < u64::MAX,
    ensures
        plan_cents(more_in, out_tokens, in_price, out_price) == plan_cents(
            in_tokens,
            out_tokens,
            in_price,
            out_price,
        ) + in_price / 10_000,
{
    let d: int = 10_000_000_000;
    let x = in_tokens * in_price + out_tokens * out_price + 5_000_000_000;
    let k = in_price / 10_000;
    assert(in_price == k * 10_000);
    assert(more_in * in_price == in_tokens * in_price + 1_000_000 * in_price) by (nonlinear_arith)
        requires
            more_in == in_tokens + 1_000_000,
    ;
    assert(in_tokens * in_price >= 0 && out_tokens * out_price >= 0) by (nonlinear_arith);
    let y = x + k * d;
    assert(more_in * in_price + out_tokens * out_price + 5_000_000_000 == y);
    lemma_fundamental_div_mod(x, d);
    lemma_fundamental_div_mod_converse_div(y, d, x / d + k, x % d);
    assert(x / d <= y / d);
}

} // verus!
