use cursor_api::adapter::{AdapterError, Openai};
use cursor_api::model::chat_completion_message_tool_call::Function;
use cursor_api::model::{
    ChatCompletionContent, ChatCompletionContentPart, ChatCompletionContentText,
    ChatCompletionMessageParam, ChatCompletionMessageToolCall, ImageUrl,
};
use cursor_api::upstream::{ConversationMessage, MessageType, ToolCallParts, UnifiedMode};
use std::cell::Cell;

type Msg = ConversationMessage<usize, u8, String, String, bool, String>;

fn text(s: &str) -> ChatCompletionContentText {
    ChatCompletionContentText::String(s.to_string())
}

fn user(s: &str) -> ChatCompletionMessageParam {
    ChatCompletionMessageParam::User { content: ChatCompletionContent::String(s.to_string()) }
}

fn image_size(u: ImageUrl) -> Result<usize, AdapterError> {
    if u.url.starts_with("bad") { Err(AdapterError::UnsupportedImageFormat) } else { Ok(u.url.len()) }
}

fn words(s: &String) -> Vec<String> {
    s.split_whitespace().filter(|w| w.starts_with("http")).map(|w| w.to_string()).collect()
}

fn web_refs(s: String) -> (String, Vec<String>, Option<bool>) {
    let (refs, rest): (Vec<&str>, Vec<&str>) = s.lines().partition(|l| l.starts_with("ref:"));
    let use_web = if refs.is_empty() { None } else { Some(true) };
    (rest.join("\n"), refs.iter().map(|r| r[4..].to_string()).collect(), use_web)
}

fn build(x: ToolCallParts) -> Result<String, AdapterError> {
    if x.name == "broken" {
        return Err(AdapterError::Base64DecodeFailed);
    }
    let answer = match x.result {
        ChatCompletionContentText::String(s) => s,
        ChatCompletionContentText::Array(_) => String::new(),
    };
    Ok(format!("{}|{}|{}|{}", x.tool_call_id, x.name, x.arguments, answer))
}

fn run(
    messages: Vec<ChatCompletionMessageParam>,
    agentic: bool,
) -> Result<(String, Vec<Msg>, Vec<String>), AdapterError> {
    Openai::process_message_params(
        messages,
        vec![1u8, 2],
        "dflt".to_string(),
        true,
        agentic,
        image_size,
        words,
        web_refs,
        build,
    )
}

fn images(urls: &[&str]) -> ChatCompletionMessageParam {
    ChatCompletionMessageParam::User {
        content: ChatCompletionContent::Array(
            urls.iter()
                .map(|u| ChatCompletionContentPart::ImageUrl { image_url: ImageUrl { url: u.to_string() } })
                .collect(),
        ),
    }
}

fn tool_call(name: &str) -> Vec<ChatCompletionMessageParam> {
    vec![
        ChatCompletionMessageParam::Assistant {
            content: None,
            tool_calls: Some(vec![ChatCompletionMessageToolCall::Function {
                id: "c1".to_string(),
                function: Function { arguments: "{}".to_string(), name: name.to_string() },
            }]),
        },
        ChatCompletionMessageParam::Tool { content: text("r"), tool_call_id: "c1".to_string() },
    ]
}

#[test]
fn only_system_messages_give_one_empty_chat_message() {
    let (instr, ms, links) = run(
        vec![ChatCompletionMessageParam::System { content: text("be brief") }],
        true,
    )
    .unwrap();
    assert_eq!(instr, "be brief");
    assert_eq!(ms.len(), 1);
    assert_eq!(ms[0].kind, MessageType::Human);
    assert_eq!(ms[0].text, "");
    assert_eq!(ms[0].unified_mode, UnifiedMode::Chat);
    assert!(!ms[0].has_server_bubble_id);
    assert!(ms[0].supported_tools.is_empty());
    assert!(links.is_empty());
}

#[test]
fn opening_assistant_gives_human_then_ai() {
    let (_, ms, _) = run(
        vec![ChatCompletionMessageParam::Assistant { content: Some(text("x")), tool_calls: None }],
        false,
    )
    .unwrap();
    assert_eq!(ms.len(), 2);
    assert_eq!(ms[0].kind, MessageType::Human);
    assert_eq!(ms[0].text, "");
    assert!(!ms[0].has_server_bubble_id);
    assert_eq!(ms[1].kind, MessageType::Ai);
    assert_eq!(ms[1].text, "x");
    assert!(ms[1].has_server_bubble_id);
}

#[test]
fn agentic_tool_exchange_messages() {
    let (_, ms, links) = run(
        vec![
            user("q http://a.example"),
            ChatCompletionMessageParam::Assistant {
                content: None,
                tool_calls: Some(vec![ChatCompletionMessageToolCall::Function {
                    id: "c1".to_string(),
                    function: Function { arguments: "{}".to_string(), name: "f".to_string() },
                }]),
            },
            ChatCompletionMessageParam::Tool { content: text("r"), tool_call_id: "c1".to_string() },
        ],
        true,
    )
    .unwrap();
    assert_eq!(ms.len(), 3);
    assert_eq!(ms[0].kind, MessageType::Human);
    assert_eq!(ms[0].external_links, vec!["http://a.example".to_string()]);
    assert_eq!(ms[1].kind, MessageType::Ai);
    assert_eq!(ms[2].kind, MessageType::Ai);
    assert_eq!(ms[2].tool_results, vec!["c1|f|{}|r".to_string()]);
    assert_eq!(ms[2].text, "");
    assert!(ms[2].web_references.is_empty() && ms[2].use_web.is_none());
    assert!(ms.iter().all(|m| m.unified_mode == UnifiedMode::Agent));
    assert!(ms[0].supported_tools.is_empty() && ms[1].supported_tools.is_empty());
    assert_eq!(ms[2].supported_tools, vec![1, 2]);
    assert!(links.is_empty());
}

#[test]
fn links_are_those_of_the_last_message() {
    let (_, ms, links) = run(vec![user("see http://x.example"), user("and http://y.example")], false).unwrap();
    assert_eq!(links, vec!["http://y.example".to_string()]);
    assert_eq!(ms[1].supported_tools, vec![1, 2]);
    assert!(ms.iter().all(|m| m.unified_mode == UnifiedMode::Chat));
}

#[test]
fn images_processed_and_failure_refuses() {
    let (_, ms, _) = run(vec![images(&["abc", "defgh"])], false).unwrap();
    assert_eq!(ms[0].images, vec![3, 5]);
    assert!(matches!(run(vec![images(&["abc", "bad"])], false), Err(AdapterError::UnsupportedImageFormat)));
}

#[test]
fn first_failing_image_gives_the_error_and_stops_the_work() {
    let calls = Cell::new(0usize);
    let counted = |u: ImageUrl| {
        calls.set(calls.get() + 1);
        match u.url.as_str() {
            "bad-format" => Err(AdapterError::UnsupportedImageFormat),
            "bad-data" => Err(AdapterError::Base64DecodeFailed),
            other => Ok(other.len()),
        }
    };
    let res: Result<(String, Vec<Msg>, Vec<String>), AdapterError> = Openai::process_message_params(
        vec![images(&["ok", "bad-format", "bad-data"]), images(&["later"])],
        vec![1u8],
        String::new(),
        true,
        false,
        counted,
        words,
        web_refs,
        build,
    );
    assert!(matches!(res, Err(AdapterError::UnsupportedImageFormat)));
    assert_eq!(calls.get(), 2);
}

#[test]
fn failing_tool_result_refuses_after_earlier_images() {
    let mut ms = vec![user("q")];
    ms.extend(tool_call("broken"));
    assert!(matches!(run(ms, true), Err(AdapterError::Base64DecodeFailed)));
    let mut ms = vec![images(&["bad"])];
    ms.extend(tool_call("broken"));
    assert!(matches!(run(ms, true), Err(AdapterError::UnsupportedImageFormat)));
}

#[test]
fn assistant_text_goes_through_web_reference_extraction() {
    let (_, ms, _) = run(
        vec![
            user("q\nref:http://not-taken"),
            ChatCompletionMessageParam::Assistant {
                content: Some(text("answer\nref:http://w.example")),
                tool_calls: None,
            },
        ],
        false,
    )
    .unwrap();
    assert_eq!(ms[0].text, "q\nref:http://not-taken");
    assert!(ms[0].web_references.is_empty() && ms[0].use_web.is_none());
    assert_eq!(ms[1].text, "answer");
    assert_eq!(ms[1].web_references, vec!["http://w.example".to_string()]);
    assert_eq!(ms[1].use_web, Some(true));
    assert!(ms[1].external_links.is_empty());
}

#[test]
fn reordering_keeping_relative_orders_gives_the_same_conversation() {
    let system = |s: &str| ChatCompletionMessageParam::System { content: text(s) };
    let ai = |s: &str| ChatCompletionMessageParam::Assistant { content: Some(text(s)), tool_calls: None };
    let a = run(vec![system("a"), user("x"), system("b"), ai("y"), user("z")], true).unwrap();
    let b = run(vec![user("x"), ai("y"), system("a"), user("z"), system("b")], true).unwrap();
    assert_eq!(a.0, "a\n\nb");
    assert_eq!(a.0, b.0);
    assert_eq!(a.1.len(), b.1.len());
    for (m1, m2) in a.1.iter().zip(b.1.iter()) {
        assert_eq!(m1.kind, m2.kind);
        assert_eq!(m1.text, m2.text);
        assert_eq!(m1.has_server_bubble_id, m2.has_server_bubble_id);
        assert_eq!(m1.supported_tools, m2.supported_tools);
        assert_eq!(m1.tool_results, m2.tool_results);
    }
    assert_eq!(a.2, b.2);
}
