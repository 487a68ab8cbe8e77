use cursor_api::adapter::Openai;
use cursor_api::model::chat_completion_message_tool_call::Function;
use cursor_api::model::{
    ChatCompletionContent, ChatCompletionContentPart, ChatCompletionContentPartText,
    ChatCompletionContentText, ChatCompletionMessageParam, ChatCompletionMessageToolCall, ImageUrl,
};
use cursor_api::plan::{ConversationPlan, PlannedMessage};

fn text(s: &str) -> ChatCompletionContentText {
    ChatCompletionContentText::String(s.to_string())
}

fn system(s: &str) -> ChatCompletionMessageParam {
    ChatCompletionMessageParam::System { content: text(s) }
}

fn user(s: &str) -> ChatCompletionMessageParam {
    ChatCompletionMessageParam::User { content: ChatCompletionContent::String(s.to_string()) }
}

fn assistant(s: Option<&str>, calls: Option<Vec<(&str, &str, &str)>>) -> ChatCompletionMessageParam {
    ChatCompletionMessageParam::Assistant {
        content: s.map(text),
        tool_calls: calls.map(|cs| {
            cs.into_iter()
                .map(|(id, name, args)| ChatCompletionMessageToolCall::Function {
                    id: id.to_string(),
                    function: Function { arguments: args.to_string(), name: name.to_string() },
                })
                .collect()
        }),
    }
}

fn tool(id: &str, s: &str) -> ChatCompletionMessageParam {
    ChatCompletionMessageParam::Tool { content: text(s), tool_call_id: id.to_string() }
}

fn messages(plan: ConversationPlan) -> Vec<PlannedMessage> {
    match plan {
        ConversationPlan::Messages(ms) => ms,
        ConversationPlan::Placeholder => panic!("placeholder"),
    }
}

fn human_text(m: &PlannedMessage) -> &str {
    match m {
        PlannedMessage::Human { text, .. } => text,
        _ => panic!("not a human turn"),
    }
}

fn ai_text(m: &PlannedMessage) -> &str {
    match m {
        PlannedMessage::Ai { text } => text,
        _ => panic!("not an assistant turn"),
    }
}

#[test]
fn only_system_messages_give_a_placeholder() {
    let (instr, plan) = Openai::plan_messages(
        vec![system("a"), system("b")],
        true,
        "default".to_string(),
    );
    assert_eq!(instr, "a\n\nb");
    assert!(matches!(plan, ConversationPlan::Placeholder));
}

#[test]
fn no_system_message_uses_default_instructions() {
    let (instr, plan) = Openai::plan_messages(vec![user("hi")], true, "default".to_string());
    assert_eq!(instr, "default");
    let ms = messages(plan);
    assert_eq!(ms.len(), 1);
    assert_eq!(human_text(&ms[0]), "hi");
}

#[test]
fn empty_system_text_uses_default_instructions() {
    let (instr, _) =
        Openai::plan_messages(vec![system(""), user("hi")], true, "dflt".to_string());
    assert_eq!(instr, "dflt");
}

#[test]
fn system_messages_anywhere_are_instructions() {
    let (instr, plan) = Openai::plan_messages(
        vec![user("q"), system("s1"), assistant(Some("a"), None), system("s2")],
        true,
        String::new(),
    );
    assert_eq!(instr, "s1\n\ns2");
    let ms = messages(plan);
    assert_eq!(ms.len(), 2);
    assert_eq!(human_text(&ms[0]), "q");
    assert_eq!(ai_text(&ms[1]), "a");
}

#[test]
fn opening_assistant_gets_an_empty_user_turn() {
    let (_, plan) =
        Openai::plan_messages(vec![assistant(Some("hello"), None), user("x")], true, String::new());
    let ms = messages(plan);
    assert_eq!(ms.len(), 3);
    assert_eq!(human_text(&ms[0]), "");
    assert_eq!(ai_text(&ms[1]), "hello");
    assert_eq!(human_text(&ms[2]), "x");
}

#[test]
fn assistant_null_content_with_tool_call_pairs_with_tool_answer() {
    let (_, plan) = Openai::plan_messages(
        vec![
            user("weather?"),
            assistant(None, Some(vec![("c0", "other", "{}"), ("c1", "weather", "{\"city\":\"x\"}")])),
            tool("c1", "sunny"),
            user("thanks"),
        ],
        true,
        String::new(),
    );
    let ms = messages(plan);
    assert_eq!(ms.len(), 4);
    assert_eq!(ai_text(&ms[1]), "");
    match &ms[2] {
        PlannedMessage::ToolExchange { tool_call_id, name, arguments, result } => {
            assert_eq!(tool_call_id, "c1");
            assert_eq!(name, "weather");
            assert_eq!(arguments, "{\"city\":\"x\"}");
            assert!(matches!(result, ChatCompletionContentText::String(s) if s == "sunny"));
        }
        _ => panic!("expected a tool exchange"),
    }
    assert_eq!(human_text(&ms[3]), "thanks");
}

#[test]
fn unanswered_or_stray_tool_messages_are_left_out() {
    let (_, plan) = Openai::plan_messages(
        vec![
            user("u"),
            assistant(Some("a"), Some(vec![("c1", "f", "{}")])),
            tool("zz", "nobody asked"),
            tool("c1", "late"),
        ],
        true,
        String::new(),
    );
    let ms = messages(plan);
    assert_eq!(ms.len(), 2);
    assert_eq!(ai_text(&ms[1]), "a");
}

#[test]
fn only_tool_messages_give_no_turns() {
    let (_, plan) = Openai::plan_messages(vec![tool("c", "x")], true, String::new());
    assert_eq!(messages(plan).len(), 0);
}

#[test]
fn user_parts_text_joined_and_images_kept_when_supported() {
    let content = || ChatCompletionContent::Array(vec![
        ChatCompletionContentPart::Text { text: "look".to_string() },
        ChatCompletionContentPart::ImageUrl { image_url: ImageUrl { url: "data:image/png;base64,AA==".to_string() } },
        ChatCompletionContentPart::Text { text: "here".to_string() },
    ]);
    let (_, plan) = Openai::plan_messages(
        vec![ChatCompletionMessageParam::User { content: content() }],
        true,
        String::new(),
    );
    let ms = messages(plan);
    match &ms[0] {
        PlannedMessage::Human { text, images } => {
            assert_eq!(text, "look\nhere");
            assert_eq!(images.len(), 1);
            assert_eq!(images[0].url, "data:image/png;base64,AA==");
        }
        _ => panic!("expected a human turn"),
    }
    let (_, plan) = Openai::plan_messages(
        vec![ChatCompletionMessageParam::User { content: content() }],
        false,
        String::new(),
    );
    match &messages(plan)[0] {
        PlannedMessage::Human { images, .. } => assert!(images.is_empty()),
        _ => panic!("expected a human turn"),
    }
}

#[test]
fn assistant_content_parts_joined_with_newlines() {
    let (_, plan) = Openai::plan_messages(
        vec![
            user("u"),
            ChatCompletionMessageParam::Assistant {
                content: Some(ChatCompletionContentText::Array(vec![
                    ChatCompletionContentPartText::Text { text: "x".to_string() },
                    ChatCompletionContentPartText::InputJson { input: "{}".to_string() },
                    ChatCompletionContentPartText::Text { text: "y".to_string() },
                ])),
                tool_calls: None,
            },
        ],
        true,
        String::new(),
    );
    assert_eq!(ai_text(&messages(plan)[1]), "x\n\ny");
}
