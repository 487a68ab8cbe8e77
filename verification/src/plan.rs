//! The conversation a chat request is turned into: the system instructions
//! and, in order, the human turns, the assistant turns and the tool
//! exchanges that pair an assistant's tool call with the tool's answer.

use vstd::prelude::*;
use crate::adapter::Openai;
use crate::completions::lemma_plan_rest_append;
use crate::model::{
    chat_completion_message_tool_call::Function, content_text, tool_call_id,
    ChatCompletionContent, ChatCompletionContentPart, ChatCompletionContentText,
    ChatCompletionMessageParam, ChatCompletionMessageToolCall, ImageUrl,
};
use crate::text::{join, join_strings, views};
use std::collections::VecDeque;

verus! {

/// One message of the conversation sent upstream.
pub enum PlannedMessage {
    /// A user turn: its text and the images still to be fetched or decoded.
    Human { text: String, images: Vec<ImageUrl> },
    /// An assistant turn.
    Ai { text: String },
    /// An assistant's call of a tool together with the tool's answer.
    ToolExchange {
        tool_call_id: String,
        name: String,
        arguments: String,
        result: ChatCompletionContentText,
    },
}

/// A planned message with its strings taken by their characters.
pub enum PlannedView {
    Human { text: Seq<char>, images: Seq<ImageUrl> },
    Ai { text: Seq<char> },
    ToolExchange {
        tool_call_id: Seq<char>,
        name: Seq<char>,
        arguments: Seq<char>,
        result: ChatCompletionContentText,
    },
}

impl View for PlannedMessage {
    type V = PlannedView;

    open spec fn view(&self) -> PlannedView {
        match self {
            PlannedMessage::Human { text, images } => PlannedView::Human { text: text@, images: images@ },
            PlannedMessage::Ai { text } => PlannedView::Ai { text: text@ },
            PlannedMessage::ToolExchange { tool_call_id, name, arguments, result } => {
                PlannedView::ToolExchange {
                    tool_call_id: tool_call_id@,
                    name: name@,
                    arguments: arguments@,
                    result: *result,
                }
            },
        }
    }
}

/// The conversation: a single empty human turn when the request has no
/// message but system ones, else the planned messages.
pub enum ConversationPlan {
    Placeholder,
    Messages(Vec<PlannedMessage>),
}

pub open spec fn plan_views(ms: Seq<PlannedMessage>) -> Seq<PlannedView> {
    ms.map_values(|m: PlannedMessage| m@)
}

/// The texts of the system messages, in order.
pub open spec fn system_texts(ps: Seq<ChatCompletionMessageParam>) -> Seq<Seq<char>>
    decreases ps.len(),
{
    if ps.len() == 0 {
        Seq::empty()
    } else {
        let rest = system_texts(ps.drop_last());
        match ps.last() {
            ChatCompletionMessageParam::System { content } => rest.push(content_text(content)),
            _ => rest,
        }
    }
}

/// The messages that are not system messages, in order.
pub open spec fn non_system(ps: Seq<ChatCompletionMessageParam>) -> Seq<ChatCompletionMessageParam>
    decreases ps.len(),
{
    if ps.len() == 0 {
        Seq::empty()
    } else {
        let rest = non_system(ps.drop_last());
        if ps.last() is System {
            rest
        } else {
            rest.push(ps.last())
        }
    }
}

/// The instructions: the system texts joined by blank lines, or the default
/// instructions when that is empty.
pub open spec fn instructions(ps: Seq<ChatCompletionMessageParam>, default: Seq<char>) -> Seq<char> {
    let joined = join(system_texts(ps), seq!['\n', '\n']);
    if joined.len() == 0 {
        default
    } else {
        joined
    }
}

/// The texts of the text parts of a user message, in order.
pub open spec fn user_part_texts(ps: Seq<ChatCompletionContentPart>) -> Seq<Seq<char>>
    decreases ps.len(),
{
    if ps.len() == 0 {
        Seq::empty()
    } else {
        let rest = user_part_texts(ps.drop_last());
        match ps.last() {
            ChatCompletionContentPart::Text { text } => rest.push(text@),
            _ => rest,
        }
    }
}

/// The image parts of a user message, in order.
pub open spec fn user_part_images(ps: Seq<ChatCompletionContentPart>) -> Seq<ImageUrl>
    decreases ps.len(),
{
    if ps.len() == 0 {
        Seq::empty()
    } else {
        let rest = user_part_images(ps.drop_last());
        match ps.last() {
            ChatCompletionContentPart::ImageUrl { image_url } => rest.push(image_url),
            _ => rest,
        }
    }
}

/// The text of a user turn: the string, or its text parts joined by newlines.
pub open spec fn user_text(c: ChatCompletionContent) -> Seq<char> {
    match c {
        ChatCompletionContent::String(s) => s@,
        ChatCompletionContent::Array(ps) => join(user_part_texts(ps@), seq!['\n']),
    }
}

/// The images of a user turn: its image parts when images are supported, else none.
pub open spec fn user_images(c: ChatCompletionContent, image_support: bool) -> Seq<ImageUrl> {
    match c {
        ChatCompletionContent::String(_) => Seq::empty(),
        ChatCompletionContent::Array(ps) => if image_support {
            user_part_images(ps@)
        } else {
            Seq::empty()
        },
    }
}

/// The text of an assistant turn: its content's text, or nothing.
pub open spec fn assistant_text(c: Option<ChatCompletionContentText>) -> Seq<char> {
    match c {
        Some(c) => content_text(c),
        None => Seq::empty(),
    }
}

/// The function of a tool call.
pub open spec fn tool_call_function(tc: ChatCompletionMessageToolCall) -> Function {
    match tc {
        ChatCompletionMessageToolCall::Function { function, .. } => function,
    }
}

/// The first index, from `k` on, of a tool call with the id `id`.
pub open spec fn first_match_from(tcs: Seq<ChatCompletionMessageToolCall>, id: Seq<char>, k: int) -> Option<int>
    decreases tcs.len() - k,
{
    if k < 0 || k >= tcs.len() {
        None
    } else if tool_call_id(tcs[k])@ == id {
        Some(k)
    } else {
        first_match_from(tcs, id, k + 1)
    }
}

/// The first index of a tool call with the id `id`.
pub open spec fn first_match(tcs: Seq<ChatCompletionMessageToolCall>, id: Seq<char>) -> Option<int> {
    first_match_from(tcs, id, 0)
}

/// The tool exchange an assistant turn with these tool calls makes with the
/// messages that follow it: when the next message is a tool message whose
/// id is that of one of the calls, the first such call and that message.
pub open spec fn tool_exchange(
    tool_calls: Option<Vec<ChatCompletionMessageToolCall>>,
    next: Seq<ChatCompletionMessageParam>,
) -> Option<PlannedView> {
    match tool_calls {
        Some(tcs) => if next.len() > 0 {
            match next[0] {
                ChatCompletionMessageParam::Tool { content, tool_call_id } => match first_match(
                    tcs@,
                    tool_call_id@,
                ) {
                    Some(i) => Some(
                        PlannedView::ToolExchange {
                            tool_call_id: tool_call_id@,
                            name: tool_call_function(tcs@[i]).name@,
                            arguments: tool_call_function(tcs@[i]).arguments@,
                            result: content,
                        },
                    ),
                    None => None,
                },
                _ => None,
            }
        } else {
            None
        },
        None => None,
    }
}

/// The planned messages of a sequence of non-system messages: a user message
/// is a human turn; an assistant message is an assistant turn, followed by a
/// tool exchange that takes the next message in when it answers one of its
/// calls; a tool message that answers nothing is left out.
pub open spec fn plan_rest(ps: Seq<ChatCompletionMessageParam>, image_support: bool) -> Seq<PlannedView>
    decreases ps.len(),
{
    if ps.len() == 0 {
        Seq::empty()
    } else {
        match ps[0] {
            ChatCompletionMessageParam::User { content } => seq![
                PlannedView::Human {
                    text: user_text(content),
                    images: user_images(content, image_support),
                },
            ] + plan_rest(ps.drop_first(), image_support),
            ChatCompletionMessageParam::Assistant { content, tool_calls } => {
                let ai = PlannedView::Ai { text: assistant_text(content) };
                match tool_exchange(tool_calls, ps.drop_first()) {
                    Some(x) => seq![ai, x] + plan_rest(ps.skip(2), image_support),
                    None => seq![ai] + plan_rest(ps.drop_first(), image_support),
                }
            },
            _ => plan_rest(ps.drop_first(), image_support),
        }
    }
}

/// The planned messages of the non-system messages `others`: an empty human
/// turn first when the conversation would open with the assistant.
pub open spec fn planned(others: Seq<ChatCompletionMessageParam>, image_support: bool) -> Seq<PlannedView> {
    if others.len() > 0 && others[0] is Assistant {
        seq![PlannedView::Human { text: Seq::empty(), images: Seq::empty() }] + plan_rest(others, image_support)
    } else {
        plan_rest(others, image_support)
    }
}

/// The index of the first tool call with the id `id`.
pub fn find_tool_call(tcs: &Vec<ChatCompletionMessageToolCall>, id: &String) -> (res: Option<usize>)
    ensures
        match res {
            Some(i) => i < tcs@.len() && first_match(tcs@, id@) == Some(i as int),
            None => first_match(tcs@, id@) is None,
        },
{
    let n = tcs.len();
    let mut i: usize = 0;
    while i < n
        invariant
            n == tcs@.len(),
            i <= n,
            first_match(tcs@, id@) == first_match_from(tcs@, id@, i as int),
        decreases n - i,
    {
        if tcs[i].id().eq(id) {
            return Some(i);
        }
        i = i + 1;
    }
    None
}

/// The text and the images of a user turn.
pub fn user_message(content: ChatCompletionContent, image_support: bool) -> (res: (String, Vec<ImageUrl>))
    ensures
        res.0@ == user_text(content),
        res.1@ == user_images(content, image_support),
{
    match content {
        ChatCompletionContent::String(text) => (text, Vec::new()),
        ChatCompletionContent::Array(contents) => {
            let ghost ps = contents@;
            let mut text_parts: Vec<String> = Vec::new();
            let mut images: Vec<ImageUrl> = Vec::new();
            for part in it: contents.into_iter()
                invariant
                    it.seq() == ps,
                    views(text_parts@) == user_part_texts(ps.take(it.index() as int)),
                    images@ == (if image_support {
                        user_part_images(ps.take(it.index() as int))
                    } else {
                        Seq::empty()
                    }),
            {
                let ghost k = it.index() as int;
                assert(ps.take(k + 1).drop_last() =~= ps.take(k));
                assert(ps.take(k + 1).last() == ps[k]);
                let ghost before = text_parts@;
                match part {
                    ChatCompletionContentPart::Text { text } => {
                        text_parts.push(text);
                        assert(views(text_parts@) =~= views(before).push(ps[k]->Text_text@));
                    },
                    ChatCompletionContentPart::ImageUrl { image_url } => {
                        if image_support {
                            images.push(image_url);
                        }
                    },
                }
            }
            assert(ps.take(ps.len() as int) =~= ps);
            proof {
                reveal_strlit("\n");
                assert("\n"@ =~= seq!['\n']);
            }
            (join_strings(text_parts, "\n"), images)
        },
    }
}

impl Openai {
    /// Turns the messages of a request into the system instructions and the
    /// planned conversation (see `instructions`, `non_system` and `planned`).
    pub fn plan_messages(
        messages: Vec<ChatCompletionMessageParam>,
        image_support: bool,
        default_instructions: String,
    ) -> (res: (String, ConversationPlan))
        ensures
            res.0@ == instructions(messages@, default_instructions@),
            match res.1 {
                ConversationPlan::Placeholder => non_system(messages@).len() == 0,
                ConversationPlan::Messages(ms) => non_system(messages@).len() > 0 && plan_views(ms@)
                    == planned(non_system(messages@), image_support),
            },
    {
        let ghost ps = messages@;
        let mut system: Vec<String> = Vec::new();
        let mut queue: VecDeque<ChatCompletionMessageParam> = VecDeque::new();
        for param in it: messages.into_iter()
            invariant
                it.seq() == ps,
                views(system@) == system_texts(ps.take(it.index() as int)),
                queue@ == non_system(ps.take(it.index() as int)),
        {
            let ghost k = it.index() as int;
            assert(ps.take(k + 1).drop_last() =~= ps.take(k));
            assert(ps.take(k + 1).last() == ps[k]);
            match param {
                ChatCompletionMessageParam::System { content } => {
                    let ghost before = system@;
                    system.push(content.text());
                    assert(views(system@) =~= views(before).push(content_text(ps[k]->System_content)));
                },
                other => {
                    queue.push_back(other);
                },
            }
        }
        assert(ps.take(ps.len() as int) =~= ps);
        proof {
            reveal_strlit("\n\n");
            assert("\n\n"@ =~= seq!['\n', '\n']);
        }
        let joined = join_strings(system, "\n\n");
        let instructions = if joined.as_str().is_empty() {
            default_instructions
        } else {
            joined
        };
        if queue.len() == 0 {
            return (instructions, ConversationPlan::Placeholder);
        }
        let ghost others = queue@;
        let mut out: Vec<PlannedMessage> = Vec::new();
        let opens_with_assistant = match &queue[0] {
            ChatCompletionMessageParam::Assistant { .. } => true,
            _ => false,
        };
        if opens_with_assistant {
            out.push(PlannedMessage::Human { text: String::new(), images: Vec::new() });
        }
        assert(plan_views(out@) + plan_rest(queue@, image_support) =~= planned(others, image_support));
        while queue.len() > 0
            invariant
                plan_views(out@) + plan_rest(queue@, image_support) == planned(others, image_support),
            decreases queue@.len(),
        {
            let ghost q = queue@;
            let ghost before = out@;
            let param = match queue.pop_front() {
                Some(p) => p,
                None => vstd::pervasive::unreached(),
            };
            match param {
                ChatCompletionMessageParam::User { content } => {
                    let (text, images) = user_message(content, image_support);
                    out.push(PlannedMessage::Human { text, images });
                    assert(plan_views(out@) =~= plan_views(before) + seq![out@.last()@]);
                    assert(q.drop_first() =~= queue@);
                },
                ChatCompletionMessageParam::Assistant { content, tool_calls } => {
                    let ghost tool_calls_g = tool_calls;
                    let text = match content {
                        Some(c) => c.text(),
                        None => String::new(),
                    };
                    out.push(PlannedMessage::Ai { text });
                    assert(plan_views(out@) =~= plan_views(before) + seq![out@.last()@]);
                    assert(q.drop_first() =~= queue@);
                    let matched: Option<usize> = match &tool_calls {
                        Some(tcs) => if queue.len() > 0 {
                            match &queue[0] {
                                ChatCompletionMessageParam::Tool { tool_call_id, .. } => find_tool_call(tcs, tool_call_id),
                                _ => None,
                            }
                        } else {
                            None
                        },
                        None => None,
                    };
                    if let Some(i) = matched {
                        let mut tcs = match tool_calls {
                            Some(tcs) => tcs,
                            None => vstd::pervasive::unreached(),
                        };
                        let ghost tcs_g = tcs@;
                        let call = tcs.swap_remove(i);
                        let ChatCompletionMessageToolCall::Function { function, .. } = call;
                        let Function { arguments, name } = function;
                        let ghost before2 = out@;
                        let ghost q2 = queue@;
                        match queue.pop_front() {
                            Some(ChatCompletionMessageParam::Tool { content, tool_call_id }) => {
                                out.push(
                                    PlannedMessage::ToolExchange {
                                        tool_call_id,
                                        name,
                                        arguments,
                                        result: content,
                                    },
                                );
                                assert(plan_views(out@) =~= plan_views(before2) + seq![out@.last()@]);
                                assert(q.skip(2) =~= queue@);
                            },
                            _ => vstd::pervasive::unreached(),
                        }
                    }
                },
                _ => {
                    assert(q.drop_first() =~= queue@);
                },
            }
        }
        (instructions, ConversationPlan::Messages(out))
    }
}

/// Without system messages the instructions are the default ones.
pub proof fn lemma_instructions_default(ps: Seq<ChatCompletionMessageParam>, default: Seq<char>)
    requires
        forall|i: int| 0 <= i < ps.len() ==> !(#[trigger] ps[i] is System),
    ensures
        instructions(ps, default) == default,
{
    lemma_no_system_texts(ps);
}

proof fn lemma_no_system_texts(ps: Seq<ChatCompletionMessageParam>)
    requires
        forall|i: int| 0 <= i < ps.len() ==> !(#[trigger] ps[i] is System),
    ensures
        system_texts(ps) == Seq::<Seq<char>>::empty(),
    decreases ps.len(),
{
    if ps.len() > 0 {
        assert(!(ps[ps.len() - 1] is System));
        lemma_no_system_texts(ps.drop_last());
    }
}

/// The system messages, in order.
pub open spec fn system_messages(ps: Seq<ChatCompletionMessageParam>) -> Seq<ChatCompletionMessageParam>
    decreases ps.len(),
{
    if ps.len() == 0 {
        Seq::empty()
    } else {
        let rest = system_messages(ps.drop_last());
        if ps.last() is System {
            rest.push(ps.last())
        } else {
            rest
        }
    }
}

/// The texts of the system messages are those of the system messages taken alone.
proof fn lemma_system_texts_of_messages(ps: Seq<ChatCompletionMessageParam>)
    ensures
        system_texts(ps) == system_messages(ps).map_values(
            |p: ChatCompletionMessageParam| content_text(p->System_content),
        ),
    decreases ps.len(),
{
    if ps.len() > 0 {
        lemma_system_texts_of_messages(ps.drop_last());
        let f = |p: ChatCompletionMessageParam| content_text(p->System_content);
        let sm = system_messages(ps.drop_last());
        if ps.last() is System {
            assert(sm.push(ps.last()).map_values(f) =~= sm.map_values(f).push(f(ps.last())));
        }
    }
}

/// Moving messages around while keeping the order of the system messages
/// among themselves and of the other messages among themselves changes
/// neither the instructions nor the planned conversation.
pub proof fn lemma_reordering_keeps_result(
    ps1: Seq<ChatCompletionMessageParam>,
    ps2: Seq<ChatCompletionMessageParam>,
    default: Seq<char>,
    image_support: bool,
)
    requires
        system_messages(ps1) == system_messages(ps2),
        non_system(ps1) == non_system(ps2),
    ensures
        instructions(ps1, default) == instructions(ps2, default),
        non_system(ps1).len() == non_system(ps2).len(),
        planned(non_system(ps1), image_support) == planned(non_system(ps2), image_support),
{
    lemma_system_texts_of_messages(ps1);
    lemma_system_texts_of_messages(ps2);
}

/// When the call at `k` is the first whose id is `id`, the search for `id`
/// from any earlier index finds it.
pub proof fn lemma_first_match_from_finds(
    tcs: Seq<ChatCompletionMessageToolCall>,
    id: Seq<char>,
    j: int,
    k: int,
)
    requires
        0 <= j <= k < tcs.len(),
        tcs[k]->id@ == id,
        forall|m: int| j <= m < k ==> (#[trigger] tcs[m])->id@ != id,
    ensures
        first_match_from(tcs, id, j) == Some(k),
    decreases k - j,
{
    if j < k {
        lemma_first_match_from_finds(tcs, id, j + 1, k);
    }
}

/// An assistant message with tool calls, directly followed by a tool message
/// that answers one of them, is planned as an assistant turn followed right
/// away by the exchange of the first call with that id and that answer,
/// whatever messages come before or after them (further tool messages
/// included).
pub proof fn lemma_answered_call_follows_its_turn(
    before: Seq<ChatCompletionMessageParam>,
    content: Option<ChatCompletionContentText>,
    tool_calls: Vec<ChatCompletionMessageToolCall>,
    answer: ChatCompletionContentText,
    id: String,
    after: Seq<ChatCompletionMessageParam>,
    k: int,
    image_support: bool,
)
    requires
        0 <= k < tool_calls@.len(),
        tool_calls@[k]->id@ == id@,
        forall|m: int| 0 <= m < k ==> (#[trigger] tool_calls@[m])->id@ != id@,
    ensures
        ({
            let ps = before + seq![
                ChatCompletionMessageParam::Assistant { content, tool_calls: Some(tool_calls) },
                ChatCompletionMessageParam::Tool { content: answer, tool_call_id: id },
            ] + after;
            let i = if before.len() == 0 {
                1int
            } else {
                planned(before, image_support).len() as int
            };
            &&& i + 1 < planned(ps, image_support).len()
            &&& planned(ps, image_support)[i] == PlannedView::Ai { text: assistant_text(content) }
            &&& planned(ps, image_support)[i + 1] == PlannedView::ToolExchange {
                tool_call_id: id@,
                name: tool_calls@[k]->function.name@,
                arguments: tool_calls@[k]->function.arguments@,
                result: answer,
            }
        }),
{
    let a = ChatCompletionMessageParam::Assistant { content, tool_calls: Some(tool_calls) };
    let t = ChatCompletionMessageParam::Tool { content: answer, tool_call_id: id };
    let rest = seq![a, t] + after;
    let ps = before + seq![a, t] + after;
    assert(ps =~= before + rest);
    lemma_first_match_from_finds(tool_calls@, id@, 0, k);
    assert(rest.drop_first()[0] == t);
    let x = PlannedView::ToolExchange {
        tool_call_id: id@,
        name: tool_calls@[k]->function.name@,
        arguments: tool_calls@[k]->function.arguments@,
        result: answer,
    };
    assert(tool_exchange(Some(tool_calls), rest.drop_first()) == Some(x));
    let ai = PlannedView::Ai { text: assistant_text(content) };
    assert(plan_rest(rest, image_support) == seq![ai, x] + plan_rest(rest.skip(2), image_support));
    if before.len() == 0 {
        assert(ps =~= rest);
    } else {
        lemma_plan_rest_append(before, rest, image_support);
        assert(ps[0] == before[0]);
        if before[0] is Assistant {
            assert(planned(ps, image_support) =~= planned(before, image_support) + plan_rest(rest, image_support));
        } else {
            assert(planned(ps, image_support) =~= planned(before, image_support) + plan_rest(rest, image_support));
        }
    }
}

} // verus!
