use cursor_api::adapter::Openai;
use cursor_api::completions::{
    try_continue, ChatCompletions, ChatError, LogIds, Refusal, RequestCounters, Tendency,
};
use cursor_api::model::chat_completion_message_tool_call::Function;
use cursor_api::model::{
    ChatCompletionContent, ChatCompletionContentText, ChatCompletionCreateParams,
    ChatCompletionMessageParam, ChatCompletionMessageToolCall, ChatCompletionStreamOptions,
};
use cursor_api::plan::{ConversationPlan, PlannedMessage};

fn text(s: &str) -> ChatCompletionContentText {
    ChatCompletionContentText::String(s.to_string())
}

fn user(s: &str) -> ChatCompletionMessageParam {
    ChatCompletionMessageParam::User { content: ChatCompletionContent::String(s.to_string()) }
}

fn assistant_calls(calls: &[(&str, &str, &str)]) -> ChatCompletionMessageParam {
    ChatCompletionMessageParam::Assistant {
        content: None,
        tool_calls: Some(
            calls
                .iter()
                .map(|(id, name, args)| ChatCompletionMessageToolCall::Function {
                    id: id.to_string(),
                    function: Function { arguments: args.to_string(), name: name.to_string() },
                })
                .collect(),
        ),
    }
}

fn tool(id: &str, s: &str) -> ChatCompletionMessageParam {
    ChatCompletionMessageParam::Tool { content: text(s), tool_call_id: id.to_string() }
}

fn request(messages: Vec<ChatCompletionMessageParam>) -> ChatCompletionCreateParams {
    ChatCompletionCreateParams {
        model: "default".to_string(),
        messages,
        stream: true,
        stream_options: ChatCompletionStreamOptions { include_usage: false },
        tools: vec![],
    }
}

#[test]
fn try_continue_takes_the_answered_call() {
    let params = vec![
        user("q"),
        assistant_calls(&[("a", "fa", "1"), ("b", "fb", "2"), ("b", "fb2", "3")]),
        tool("b", "result"),
    ];
    let (content, id, name, args) = match try_continue(params) {
        Ok(c) => c,
        Err(_) => panic!("expected a continuation"),
    };
    assert!(matches!(content, ChatCompletionContentText::String(s) if s == "result"));
    assert_eq!(id, "b");
    assert_eq!(name, "fb");
    assert_eq!(args, "2");
}

#[test]
fn try_continue_gives_back_the_messages_otherwise() {
    let params = vec![user("q"), assistant_calls(&[("a", "fa", "1")]), tool("z", "r")];
    match try_continue(params) {
        Err(ps) => {
            assert_eq!(ps.len(), 3);
            assert!(matches!(&ps[2], ChatCompletionMessageParam::Tool { tool_call_id, .. } if tool_call_id == "z"));
        }
        Ok(_) => panic!("no call was answered"),
    }
    assert!(try_continue(vec![tool("a", "r")]).is_err());
    assert!(try_continue(vec![assistant_calls(&[("a", "f", "")]), user("x")]).is_err());
    assert!(try_continue(vec![]).is_err());
}

fn counters() -> RequestCounters {
    RequestCounters { total: 10, active: 2 }
}

#[test]
fn token_error_is_refused_first_and_changes_nothing() {
    let mut c = counters();
    let mut logs = LogIds { enabled: true, next: 5 };
    let r = ChatCompletions::normalize_request::<u32, &str, &str, u64, &str, u8, ()>(
        Err("bad token"),
        request(vec![]),
        None,
        99,
        "linux",
        3,
        (),
        &mut c,
        &mut logs,
    );
    assert!(matches!(r, Err(Refusal::Token("bad token"))));
    assert_eq!((c.total, c.active, logs.next), (10, 2, 5));
}

#[test]
fn unknown_model_is_refused_before_messages() {
    let mut c = counters();
    let mut logs = LogIds { enabled: true, next: 5 };
    match ChatCompletions::normalize_request::<u32, &str, (), u64, &str, u8, ()>(
        Ok(("tok", false)),
        request(vec![]),
        None,
        99,
        "linux",
        3,
        (),
        &mut c,
        &mut logs,
    ) {
        Err(Refusal::Chat(ChatError::ModelNotSupported(name))) => assert_eq!(name, "default"),
        _ => panic!("expected ModelNotSupported"),
    }
    assert_eq!((c.total, c.active, logs.next), (10, 2, 5));
}

#[test]
fn empty_messages_are_a_bad_request() {
    let mut c = counters();
    let mut logs = LogIds { enabled: false, next: 5 };
    assert!(matches!(
        ChatCompletions::normalize_request::<u32, &str, (), u64, &str, u8, ()>(
            Ok(("tok", false)),
            request(vec![]),
            Some(1),
            99,
            "linux",
            3,
            (),
            &mut c,
            &mut logs,
        ),
        Err(Refusal::Chat(ChatError::EmptyMessages(400)))
    ));
    assert_eq!((c.total, c.active), (10, 2));
}

#[test]
fn answered_call_continues_with_log_id() {
    let mut c = counters();
    let mut logs = LogIds { enabled: true, next: 5 };
    let r = ChatCompletions::normalize_request::<u32, &str, (), u64, &str, u8, ()>(
        Ok(("tok", true)),
        request(vec![user("q"), assistant_calls(&[("c", "f", "{}")]), tool("c", "ok")]),
        Some(7),
        99,
        "linux",
        3,
        (),
        &mut c,
        &mut logs,
    );
    match r {
        Ok((Tendency::Continue(k), Some(log))) => {
            assert_eq!(k.tool_call_id, "c");
            assert_eq!(k.name, "f");
            assert_eq!(k.arguments, "{}");
            assert_eq!(k.current_id, 5);
            assert_eq!((log.id, log.timestamp, log.model, log.token, log.stream), (5, 99, 7, "tok", true));
        }
        _ => panic!("expected a continuation with a log entry"),
    }
    assert_eq!((c.total, c.active, logs.next), (11, 3, 6));
}

#[test]
fn other_requests_start_unlogged_with_id_zero() {
    let mut c = RequestCounters { total: u64::MAX, active: 0 };
    let mut logs = LogIds { enabled: false, next: 5 };
    let r = ChatCompletions::normalize_request::<u32, &str, (), u64, &str, u8, ()>(
        Ok(("tok", true)),
        request(vec![user("q")]),
        Some(7),
        99,
        "linux",
        3,
        (),
        &mut c,
        &mut logs,
    );
    match r {
        Ok((Tendency::Start(s), None)) => {
            assert_eq!(s.model, 7);
            assert_eq!(s.params.len(), 1);
            assert!(s.is_stream);
            assert!(s.use_pri);
            assert_eq!(s.ext_token, "tok");
            assert_eq!(s.current_id, 0);
            assert_eq!(s.request_time, 99);
            assert_eq!((s.environment_info, s.current_config), ("linux", 3));
            assert!(!s.stream_options.include_usage);
        }
        _ => panic!("expected an unlogged start"),
    }
    assert_eq!((c.total, c.active, logs.next), (0, 1, 5));
}

#[test]
fn continuation_is_the_end_of_the_full_plan() {
    let make = || vec![user("q"), assistant_calls(&[("c", "f", "{\"x\":1}")]), tool("c", "ok")];
    let (_, _, name, args) = match try_continue(make()) {
        Ok(c) => c,
        Err(_) => panic!("expected a continuation"),
    };
    let (_, plan) = Openai::plan_messages(make(), true, String::new());
    let ms = match plan {
        ConversationPlan::Messages(ms) => ms,
        ConversationPlan::Placeholder => panic!("placeholder"),
    };
    match ms.last().unwrap() {
        PlannedMessage::ToolExchange { tool_call_id, name: n, arguments, .. } => {
            assert_eq!(tool_call_id, "c");
            assert_eq!(n, &name);
            assert_eq!(arguments, &args);
        }
        _ => panic!("expected the tool exchange last"),
    }
    assert!(matches!(&ms[ms.len() - 2], PlannedMessage::Ai { text } if text.is_empty()));
}
