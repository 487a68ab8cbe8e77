use cursor_api::model::chat_completion_message_tool_call::Function;
use cursor_api::model::{
    ChatCompletionContentPartText, ChatCompletionContentText, ChatCompletionCreateParams,
    ChatCompletionMessageParam, ChatCompletionMessageToolCall, ChatCompletionStreamOptions,
    ErrorDetail, PromptTokensDetails, Usage,
};

fn part(s: &str) -> ChatCompletionContentPartText {
    ChatCompletionContentPartText::Text { text: s.to_string() }
}

#[test]
fn part_text_of_each_kind() {
    assert_eq!(part("a").text(), "a");
    assert_eq!(ChatCompletionContentPartText::Thinking { thinking: "t".to_string() }.text(), "t");
    assert_eq!(ChatCompletionContentPartText::InputJson { input: "{}".to_string() }.text(), "");
    assert_eq!(ChatCompletionContentPartText::Other.text(), "");
}

#[test]
fn content_text_joins_parts_with_newlines() {
    assert_eq!(ChatCompletionContentText::String("plain".to_string()).text(), "plain");
    let c = ChatCompletionContentText::Array(vec![
        part("first"),
        ChatCompletionContentPartText::Other,
        ChatCompletionContentPartText::Thinking { thinking: "third".to_string() },
    ]);
    assert_eq!(c.text(), "first\n\nthird");
    assert_eq!(ChatCompletionContentText::Array(vec![]).text(), "");
    assert_eq!(ChatCompletionContentText::Array(vec![part("only")]).text(), "only");
}

#[test]
fn tool_call_id_is_its_id() {
    let tc = ChatCompletionMessageToolCall::Function {
        id: "call_1".to_string(),
        function: Function { arguments: "{}".to_string(), name: "f".to_string() },
    };
    assert_eq!(tc.id(), "call_1");
}

#[test]
fn strip_hands_out_the_request_parts() {
    let req = ChatCompletionCreateParams {
        model: "default".to_string(),
        messages: vec![ChatCompletionMessageParam::System {
            content: ChatCompletionContentText::String("s".to_string()),
        }],
        stream: true,
        stream_options: ChatCompletionStreamOptions { include_usage: true },
        tools: vec![],
    };
    let (messages, tools, stream, options) = req.strip();
    assert_eq!(messages.len(), 1);
    assert!(tools.is_empty());
    assert!(stream);
    assert!(options.include_usage);
    assert!(!ChatCompletionStreamOptions::default().include_usage);
}

#[test]
fn prompt_token_details_zero() {
    assert!(PromptTokensDetails { cached_tokens: 0 }.is_zero());
    assert!(!PromptTokensDetails { cached_tokens: 3 }.is_zero());
    assert!(PromptTokensDetails::default().is_zero());
    let u = Usage::default();
    assert_eq!((u.prompt_tokens, u.completion_tokens, u.total_tokens), (0, 0, 0));
    assert!(u.prompt_tokens_details.is_zero());
}

#[test]
fn wrapped_error_keeps_its_detail() {
    let e = ErrorDetail { code: Some("bad".to_string()), message: "msg".to_string() }.wrapped();
    assert_eq!(e.detail().code.as_deref(), Some("bad"));
    assert_eq!(e.detail().message, "msg");
}
