//! The chat-completions protocol handler's decision: refuse the request,
//! continue a tool call, or start a conversation.

use vstd::prelude::*;
use crate::model::{
    chat_completion_message_tool_call::Function, ChatCompletionContentText,
    ChatCompletionCreateParams, ChatCompletionMessageParam, ChatCompletionMessageToolCall,
    ChatCompletionStreamOptions, ChatCompletionTool,
};
use crate::plan::{
    find_tool_call, first_match, lemma_first_match_from_finds, non_system, plan_rest, planned, tool_call_function, tool_exchange,
    PlannedView, assistant_text,
};

verus! {

/// What a request that continues a tool call carries: the tool's answer,
/// the id of the call, the name of the function and its arguments.
pub type Continuation = (ChatCompletionContentText, String, String, String);

/// The continuation the messages make: when the last two are an assistant
/// message with tool calls and a tool message answering one of those calls,
/// the answer, its id, and the name and arguments of the first call with
/// that id.
pub open spec fn continuation(ps: Seq<ChatCompletionMessageParam>) -> Option<Continuation> {
    if ps.len() >= 2 {
        match (ps[ps.len() - 2], ps[ps.len() - 1]) {
            (
                ChatCompletionMessageParam::Assistant { tool_calls: Some(tcs), .. },
                ChatCompletionMessageParam::Tool { content, tool_call_id },
            ) => match first_match(tcs@, tool_call_id@) {
                Some(i) => Some(
                    (
                        content,
                        tool_call_id,
                        tool_call_function(tcs@[i]).name,
                        tool_call_function(tcs@[i]).arguments,
                    ),
                ),
                None => None,
            },
            _ => None,
        }
    } else {
        None
    }
}

/// The continuation the messages make (see `continuation`), or the messages
/// themselves, unchanged, when they make none.
pub fn try_continue(mut params: Vec<ChatCompletionMessageParam>) -> (res: Result<
    Continuation,
    Vec<ChatCompletionMessageParam>,
>)
    ensures
        match res {
            Ok(c) => continuation(params@) == Some(c),
            Err(ps) => continuation(params@) is None && ps@ == params@,
        },
{
    let ghost ps = params@;
    let n = params.len();
    if n < 2 {
        return Err(params);
    }
    let matched: Option<usize> = match (&params[n - 2], &params[n - 1]) {
        (
            ChatCompletionMessageParam::Assistant { tool_calls: Some(tool_calls), .. },
            ChatCompletionMessageParam::Tool { tool_call_id, .. },
        ) => find_tool_call(tool_calls, tool_call_id),
        _ => None,
    };
    match matched {
        None => Err(params),
        Some(i) => {
            let tool = match params.pop() {
                Some(t) => t,
                None => vstd::pervasive::unreached(),
            };
            let assistant = match params.pop() {
                Some(a) => a,
                None => vstd::pervasive::unreached(),
            };
            match (assistant, tool) {
                (
                    ChatCompletionMessageParam::Assistant { tool_calls: Some(mut tool_calls), .. },
                    ChatCompletionMessageParam::Tool { content, tool_call_id },
                ) => {
                    let call = tool_calls.swap_remove(i);
                    let ChatCompletionMessageToolCall::Function { function, .. } = call;
                    let Function { arguments, name } = function;
                    Ok((content, tool_call_id, name, arguments))
                },
                _ => vstd::pervasive::unreached(),
            }
        },
    }
}

/// Why a request is refused before any upstream work.
pub enum ChatError {
    /// The model is not one that is served; carries the model asked for.
    ModelNotSupported(String),
    /// The request has no message; carries the HTTP status (400).
    EmptyMessages(u16),
}

/// Why a request is refused: its token could not be resolved (with the
/// token's own error), or the chat request itself is refused.
pub enum Refusal<E> {
    Token(E),
    Chat(ChatError),
}

/// Whether a request starts a conversation or continues a tool call.
pub enum Tendency<S, C> {
    Start(S),
    Continue(C),
}

/// What a request that starts a conversation carries on.
pub struct Start<M, K, D, V, C, S> {
    pub params: Vec<ChatCompletionMessageParam>,
    pub tools: Vec<ChatCompletionTool>,
    pub environment_info: V,
    pub current_config: C,
    pub request_time: D,
    pub ext_token: K,
    pub model: M,
    pub state: S,
    pub current_id: u64,
    pub use_pri: bool,
    pub is_stream: bool,
    pub stream_options: ChatCompletionStreamOptions,
}

/// What a request that continues a tool call carries on.
pub struct Continue {
    pub content: ChatCompletionContentText,
    pub tool_call_id: String,
    pub name: String,
    pub arguments: String,
    pub current_id: u64,
}

/// The service's request counters.
pub struct RequestCounters {
    /// Requests taken on since start.
    pub total: u64,
    /// Requests being served.
    pub active: u64,
}

/// The request log's state as far as a new request is concerned: whether
/// requests are logged, and the id the next logged request gets.
pub struct LogIds {
    pub enabled: bool,
    pub next: u64,
}

/// A pending entry of the request log: its id, the request's time, model,
/// token and stream flag (its status is pending, with no error, no usage
/// and no timing yet).
pub struct PendingLog<M, K, D> {
    pub id: u64,
    pub timestamp: D,
    pub model: M,
    pub token: K,
    pub stream: bool,
}

/// A counter one further, wrapping at the end of its range.
pub open spec fn next_count(x: u64) -> u64 {
    if x == u64::MAX {
        0
    } else {
        (x + 1) as u64
    }
}

/// The chat-completions protocol handler.
pub struct ChatCompletions;

impl ChatCompletions {
    /// Decides what to do with a request, given its token bundle (the token
    /// and whether to use the private route, or the token's error), the
    /// served model its model name was resolved to (`None` when it names no
    /// served model), the time it came in, the environment info and key
    /// configuration it carries, and the service's state.
    ///
    /// A token error refuses it first; then an unknown model, then an empty
    /// message list (status 400); a refused request changes nothing. An
    /// accepted request counts once more in the total and the active
    /// requests; when requests are logged it takes the next log id as its
    /// id and gives the pending log entry to add, else its id is 0. It then
    /// continues the tool call its last two messages make, or starts a
    /// conversation.
    pub fn normalize_request<M: Copy, K: Clone, E, D: Copy, V, C, S>(
        token: Result<(K, bool), E>,
        request: ChatCompletionCreateParams,
        model: Option<M>,
        request_time: D,
        environment_info: V,
        current_config: C,
        state: S,
        counters: &mut RequestCounters,
        log_ids: &mut LogIds,
    ) -> (res: Result<(Tendency<Start<M, K, D, V, C, S>, Continue>, Option<PendingLog<M, K, D>>), Refusal<E>>)
        ensures
            res is Err ==> *final(counters) == *old(counters) && *final(log_ids) == *old(log_ids),
            token matches Err(e) ==> (res matches Err(Refusal::Token(e2)) && e2 == e),
            token is Ok && model is None ==> (res matches Err(
                Refusal::Chat(ChatError::ModelNotSupported(name)),
            ) && name == request.model),
            token is Ok && model is Some && request.messages@.len() == 0 ==> (res matches Err(
                Refusal::Chat(ChatError::EmptyMessages(status)),
            ) && status == 400),
            token is Ok && model is Some && request.messages@.len() > 0 ==> ({
                let (ext_token, use_pri) = token->Ok_0;
                let m = model.unwrap();
                let id = if old(log_ids).enabled {
                    old(log_ids).next
                } else {
                    0
                };
                &&& final(counters).total == next_count(old(counters).total)
                &&& final(counters).active == next_count(old(counters).active)
                &&& final(log_ids).enabled == old(log_ids).enabled
                &&& final(log_ids).next == if old(log_ids).enabled {
                    next_count(old(log_ids).next)
                } else {
                    old(log_ids).next
                }
                &&& res matches Ok((tendency, log)) && (if old(log_ids).enabled {
                    log matches Some(l) && l.id == id && l.timestamp == request_time && l.model
                        == m && cloned::<K>(ext_token, l.token) && l.stream == request.stream
                } else {
                    log is None
                }) && match continuation(request.messages@) {
                    Some((content, tool_call_id, name, arguments)) => tendency == Tendency::<
                        Start<M, K, D, V, C, S>,
                        Continue,
                    >::Continue(
                        Continue { content, tool_call_id, name, arguments, current_id: id },
                    ),
                    None => tendency matches Tendency::Start(s) && s.params@ == request.messages@
                        && s.tools == request.tools && s.environment_info == environment_info
                        && s.current_config == current_config && s.state == state
                        && s.request_time == request_time
                        && s.ext_token == ext_token && s.model == m && s.current_id == id
                        && s.use_pri == use_pri && s.is_stream == request.stream
                        && s.stream_options == request.stream_options,
                }
            }),
    {
        let (ext_token, use_pri) = match token {
            Ok(t) => t,
            Err(e) => return Err(Refusal::Token(e)),
        };
        let model = match model {
            Some(m) => m,
            None => return Err(Refusal::Chat(ChatError::ModelNotSupported(request.model))),
        };
        let (params, tools, is_stream, stream_options) = request.strip();
        if params.len() == 0 {
            return Err(Refusal::Chat(ChatError::EmptyMessages(400)));
        }
        counters.total = counters.total.wrapping_add(1);
        counters.active = counters.active.wrapping_add(1);
        let (current_id, log) = if log_ids.enabled {
            let id = log_ids.next;
            log_ids.next = log_ids.next.wrapping_add(1);
            let log = PendingLog {
                id,
                timestamp: request_time,
                model,
                token: ext_token.clone(),
                stream: is_stream,
            };
            (id, Some(log))
        } else {
            (0, None)
        };
        let tendency = match try_continue(params) {
            Ok((content, tool_call_id, name, arguments)) => Tendency::Continue(
                Continue { content, tool_call_id, name, arguments, current_id },
            ),
            Err(params) => Tendency::Start(
                Start {
                    params,
                    tools,
                    environment_info,
                    current_config,
                    request_time,
                    ext_token,
                    model,
                    state,
                    current_id,
                    use_pri,
                    is_stream,
                    stream_options,
                },
            ),
        };
        Ok((tendency, log))
    }
}

/// Planning a sequence followed by messages that do not open with a tool
/// message plans each part on its own.
pub proof fn lemma_plan_rest_append(
    s: Seq<ChatCompletionMessageParam>,
    t: Seq<ChatCompletionMessageParam>,
    image_support: bool,
)
    requires
        t.len() > 0,
        !(t[0] is Tool),
    ensures
        plan_rest(s + t, image_support) == plan_rest(s, image_support) + plan_rest(t, image_support),
    decreases s.len(),
{
    let st = s + t;
    if s.len() == 0 {
        assert(st =~= t);
        assert(plan_rest(s, image_support) =~= Seq::<PlannedView>::empty());
        assert(plan_rest(st, image_support) =~= plan_rest(s, image_support) + plan_rest(t, image_support));
    } else {
        assert(st[0] == s[0]);
        assert(st.drop_first() =~= s.drop_first() + t);
        lemma_plan_rest_append(s.drop_first(), t, image_support);
        match s[0] {
            ChatCompletionMessageParam::Assistant { content, tool_calls } => {
                if s.len() >= 2 {
                    assert(st.drop_first()[0] == s.drop_first()[0]);
                    assert(tool_exchange(tool_calls, st.drop_first()) == tool_exchange(
                        tool_calls,
                        s.drop_first(),
                    ));
                    assert(st.skip(2) =~= s.skip(2) + t);
                    lemma_plan_rest_append(s.skip(2), t, image_support);
                } else {
                    assert(s.drop_first() =~= Seq::<ChatCompletionMessageParam>::empty());
                    assert(st.drop_first() =~= t);
                    assert(tool_exchange(tool_calls, st.drop_first()) is None);
                    assert(tool_exchange(tool_calls, s.drop_first()) is None);
                    assert(plan_rest(s.drop_first(), image_support) =~= Seq::<PlannedView>::empty());
                }
            },
            _ => {},
        }
        assert(plan_rest(st, image_support) =~= plan_rest(s, image_support) + plan_rest(t, image_support));
    }
}

/// A request whose messages make a continuation is planned, in full, as a
/// conversation that ends with the assistant's turn and then that very tool
/// exchange: the answer, its id, and the function's name and arguments.
pub proof fn lemma_continuation_ends_plan(ps: Seq<ChatCompletionMessageParam>, image_support: bool)
    requires
        continuation(ps) is Some,
    ensures
        ({
            let (content, id, name, arguments) = continuation(ps).unwrap();
            let p = planned(non_system(ps), image_support);
            &&& non_system(ps).len() > 0
            &&& p.len() >= 2
            &&& p.last() == PlannedView::ToolExchange {
                tool_call_id: id@,
                name: name@,
                arguments: arguments@,
                result: content,
            }
            &&& p[p.len() - 2] == PlannedView::Ai {
                text: assistant_text(ps[ps.len() - 2]->Assistant_content),
            }
        }),
{
    let n = ps.len() as int;
    let a = ps[n - 2];
    let t = ps[n - 1];
    let pair = seq![a, t];
    let prefix = non_system(ps.take(n - 2));
    assert(ps.drop_last() =~= ps.take(n - 1));
    assert(ps.take(n - 1).drop_last() =~= ps.take(n - 2));
    assert(ps.take(n - 1).last() == a);
    let others = non_system(ps);
    assert(ps.last() == t);
    assert(non_system(ps) == non_system(ps.drop_last()).push(t));
    assert(non_system(ps.take(n - 1)) == prefix.push(a));
    assert(others =~= prefix + pair);
    assert(pair.drop_first() =~= seq![t]);
    assert(pair.skip(2) =~= Seq::<ChatCompletionMessageParam>::empty());
    let x = tool_exchange(a->Assistant_tool_calls, pair.drop_first());
    assert(x is Some);
    assert(plan_rest(pair.skip(2), image_support) =~= Seq::<PlannedView>::empty());
    let ai = PlannedView::Ai { text: assistant_text(a->Assistant_content) };
    assert(plan_rest(pair, image_support) =~= seq![ai, x.unwrap()]);
    lemma_plan_rest_append(prefix, pair, image_support);
    let p = planned(others, image_support);
    if others[0] is Assistant {
        let h = seq![PlannedView::Human { text: Seq::empty(), images: Seq::empty() }];
        assert(p =~= h + plan_rest(prefix, image_support) + seq![ai, x.unwrap()]);
    } else {
        assert(p =~= plan_rest(prefix, image_support) + seq![ai, x.unwrap()]);
    }
}

/// When the last two messages are an assistant message with tool calls,
/// whatever its content, and a tool message whose id is that of one of
/// those calls, the request continues that call: with the tool's answer,
/// its id, and the name and arguments of the first call with that id.
pub proof fn lemma_answered_last_call_continues(
    before: Seq<ChatCompletionMessageParam>,
    content: Option<ChatCompletionContentText>,
    tool_calls: Vec<ChatCompletionMessageToolCall>,
    answer: ChatCompletionContentText,
    id: String,
    k: int,
)
    requires
        0 <= k < tool_calls@.len(),
        tool_calls@[k]->id@ == id@,
        forall|m: int| 0 <= m < k ==> (#[trigger] tool_calls@[m])->id@ != id@,
    ensures
        continuation(
            before + seq![
                ChatCompletionMessageParam::Assistant { content, tool_calls: Some(tool_calls) },
                ChatCompletionMessageParam::Tool { content: answer, tool_call_id: id },
            ],
        ) == Some((answer, id, tool_calls@[k]->function.name, tool_calls@[k]->function.arguments)),
{
    let ps = before + seq![
        ChatCompletionMessageParam::Assistant { content, tool_calls: Some(tool_calls) },
        ChatCompletionMessageParam::Tool { content: answer, tool_call_id: id },
    ];
    assert(ps[ps.len() - 2] == ChatCompletionMessageParam::Assistant { content, tool_calls: Some(tool_calls) });
    assert(ps[ps.len() - 1] == ChatCompletionMessageParam::Tool { content: answer, tool_call_id: id });
    lemma_first_match_from_finds(tool_calls@, id@, 0, k);
}

/// Whether a request continues a tool call, and how, does not depend on the
/// content of the assistant message before the tool message.
pub proof fn lemma_continuation_ignores_assistant_content(
    before: Seq<ChatCompletionMessageParam>,
    content1: Option<ChatCompletionContentText>,
    content2: Option<ChatCompletionContentText>,
    tool_calls: Option<Vec<ChatCompletionMessageToolCall>>,
    last: ChatCompletionMessageParam,
)
    ensures
        continuation(
            before + seq![ChatCompletionMessageParam::Assistant { content: content1, tool_calls }, last],
        ) == continuation(
            before + seq![ChatCompletionMessageParam::Assistant { content: content2, tool_calls }, last],
        ),
{
    let ps1 = before + seq![ChatCompletionMessageParam::Assistant { content: content1, tool_calls }, last];
    let ps2 = before + seq![ChatCompletionMessageParam::Assistant { content: content2, tool_calls }, last];
    assert(ps1[ps1.len() - 2] == ChatCompletionMessageParam::Assistant { content: content1, tool_calls });
    assert(ps2[ps2.len() - 2] == ChatCompletionMessageParam::Assistant { content: content2, tool_calls });
    assert(ps1[ps1.len() - 1] == last && ps2[ps2.len() - 1] == last);
}

} // verus!
