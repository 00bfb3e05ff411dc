use jear::near_wire::{
    CalledFunction, ChatMessage, ChatRequest, ChatResponse, ChatTool, Choice, FunctionDef,
    ModelEntry, ModelsResponse, ToolCall, Usage,
};

fn assistant(content: &str, tool_calls: Vec<ToolCall>) -> ChatMessage {
    ChatMessage {
        role: "assistant".to_string(),
        content: content.to_string(),
        tool_calls,
    }
}

#[test]
fn request_serializes_openai_shape() {
    let r = ChatRequest::new("zai-org/GLM-5.1-FP8", "Hello!");
    assert_eq!(r.model, "zai-org/GLM-5.1-FP8");
    assert_eq!(r.messages[0].role, "user");
    assert_eq!(r.messages[0].content, "Hello!");
    assert!(r.tools.is_empty());
    assert!(r.messages[0].tool_calls.is_empty());
}

#[test]
fn response_deserializes_with_usage() {
    let r = ChatResponse {
        id: "chatcmpl-1".to_string(),
        model: "zai-org/GLM-5.1-FP8".to_string(),
        choices: vec![Choice {
            index: 0,
            message: assistant("Hi!", Vec::new()),
            finish_reason: Some("stop".to_string()),
        }],
        usage: Some(Usage {
            prompt_tokens: 8,
            completion_tokens: 3,
            total_tokens: 11,
        }),
    };
    assert_eq!(r.first_text(), Some("Hi!"));
    let u = r.usage.expect("usage");
    assert_eq!(u.total_tokens, 11);
}

#[test]
fn missing_usage_is_none() {
    let r = ChatResponse {
        id: "chatcmpl-2".to_string(),
        model: "openai/gpt-5".to_string(),
        choices: Vec::new(),
        usage: None,
    };
    assert!(r.usage.is_none());
    assert!(r.first_text().is_none());
}

#[test]
fn tools_round_trip_verbatim() {
    let req = ChatRequest::new("zai-org/GLM-5.1-FP8", "What is 2+2?").with_tools(vec![ChatTool {
        kind: "function".to_string(),
        function: FunctionDef {
            name: "calc".to_string(),
            description: Some("Evaluate math".to_string()),
            parameters: Some("{\"type\": \"object\"}".to_string()),
        },
    }]);
    assert_eq!(req.tools[0].kind, "function");
    assert_eq!(req.tools[0].function.name, "calc");
    assert_eq!(req.messages[0].content, "What is 2+2?");
    let r = ChatResponse {
        id: "chatcmpl-3".to_string(),
        model: "zai-org/GLM-5.1-FP8".to_string(),
        choices: vec![Choice {
            index: 0,
            message: assistant(
                "",
                vec![ToolCall {
                    id: "call_1".to_string(),
                    kind: "function".to_string(),
                    function: CalledFunction {
                        name: "calc".to_string(),
                        arguments: "{\"x\": 2}".to_string(),
                    },
                }],
            ),
            finish_reason: Some("tool_calls".to_string()),
        }],
        usage: None,
    };
    let call = &r.choices[0].message.tool_calls[0];
    assert_eq!(call.id, "call_1");
    assert_eq!(call.function.name, "calc");
}

fn catalog_entry(input: Option<u64>, output: Option<u64>) -> ModelEntry {
    ModelEntry {
        id: "zai-org/GLM-5.1-FP8".to_string(),
        context_length: Some(128000),
        max_output_length: Some(8000),
        input_price_per_mtok: input,
        output_price_per_mtok: output,
        supports_tools: true,
        supports_reasoning: false,
    }
}

#[test]
fn catalog_entry_prices_estimate() {
    // $0.20 / $1.00 per million tokens, in millionths of a dollar.
    let e = catalog_entry(Some(200_000), Some(1_000_000));
    assert_eq!(e.context_length, Some(128000));
    assert!(e.supports_tools);
    // 1000 in + 500 out at $0.20/$1.00 per MTok = $0.0007 = 0c rounded.
    assert_eq!(e.estimated_cents(1000, 500), Some(0));
    // 1M in + 1M out = $1.20 = 120c.
    assert_eq!(e.estimated_cents(1_000_000, 1_000_000), Some(120));
}

#[test]
fn unpriced_entry_has_no_estimate() {
    let e = ModelEntry {
        id: "mystery-model".to_string(),
        context_length: None,
        max_output_length: None,
        input_price_per_mtok: None,
        output_price_per_mtok: None,
        supports_tools: false,
        supports_reasoning: false,
    };
    assert!(e.estimated_cents(1000, 1000).is_none());
    let list = ModelsResponse { data: vec![e] };
    assert_eq!(list.data.len(), 1);
}

#[test]
fn estimates_round_half_up_and_saturate() {
    // 25_000 tokens at $2.00 per million = $0.05 = 5c exactly.
    let e = catalog_entry(Some(2_000_000), Some(0));
    assert_eq!(e.estimated_cents(25_000, 0), Some(5));
    // 2_500 tokens at $2.00 per million = 0.5c, rounds up to 1c.
    assert_eq!(e.estimated_cents(2_500, 0), Some(1));
    // 2_499 tokens = 0.4998c, rounds down to 0c.
    assert_eq!(e.estimated_cents(2_499, 0), Some(0));
    // Huge plans hold at u64::MAX instead of wrapping.
    let big = catalog_entry(Some(u64::MAX), Some(u64::MAX));
    assert_eq!(big.estimated_cents(u64::MAX, u64::MAX), Some(u64::MAX));
    // One missing price leaves the entry unpriced.
    assert!(catalog_entry(Some(1), None).estimated_cents(1, 1).is_none());
    assert!(catalog_entry(None, Some(1)).estimated_cents(1, 1).is_none());
}

#[test]
fn user_message_has_no_tool_calls() {
    let m = ChatMessage::user("hi");
    assert_eq!(m.role, "user");
    assert_eq!(m.content, "hi");
    assert!(m.tool_calls.is_empty());
}
