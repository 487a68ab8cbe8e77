//! The messages sent upstream: each planned turn with its kind, its images
//! processed, its external links or web references, its tool result, its
//! unified mode and, on the last message, the tools the client supports.

use vstd::prelude::*;
use crate::adapter::{AdapterError, Openai};
use crate::model::{ChatCompletionContentText, ChatCompletionMessageParam, ImageUrl};
use crate::plan::{
    instructions, lemma_reordering_keeps_result, non_system, plan_views, planned, system_messages,
    ConversationPlan, PlannedMessage, PlannedView,
};

verus! {

/// Who a message is from.
#[derive(Clone, Copy, PartialEq, Eq, Structural, Debug)]
pub enum MessageType {
    Human,
    Ai,
}

/// The mode the upstream runs a message in.
#[derive(Clone, Copy, PartialEq, Eq, Structural, Debug)]
pub enum UnifiedMode {
    Chat,
    Agent,
}

/// Agent mode for an agentic request, chat mode otherwise.
pub open spec fn mode_for(is_agentic: bool) -> UnifiedMode {
    if is_agentic {
        UnifiedMode::Agent
    } else {
        UnifiedMode::Chat
    }
}

/// What a tool exchange hands to the builder of its tool result: the id of
/// the call, the tool's name, the raw arguments and the tool's answer.
pub struct ToolCallParts {
    pub tool_call_id: String,
    pub name: String,
    pub arguments: String,
    pub result: ChatCompletionContentText,
}

/// `x` carries the parts of the planned tool exchange `p`.
pub open spec fn parts_of(p: PlannedView, x: ToolCallParts) -> bool {
    match p {
        PlannedView::ToolExchange { tool_call_id, name, arguments, result } => {
            &&& x.tool_call_id@ == tool_call_id
            &&& x.name@ == name
            &&& x.arguments@ == arguments
            &&& x.result == result
        },
        _ => false,
    }
}

/// A message of the upstream conversation. Every message gets a fresh bubble
/// id; `has_server_bubble_id` says whether it also gets a server bubble id.
#[verifier::reject_recursive_types(I)]
#[verifier::reject_recursive_types(T)]
#[verifier::reject_recursive_types(L)]
#[verifier::reject_recursive_types(R)]
#[verifier::reject_recursive_types(U)]
#[verifier::reject_recursive_types(Q)]
pub struct ConversationMessage<I, T, L, R, U, Q> {
    pub kind: MessageType,
    pub text: String,
    pub images: Vec<I>,
    pub has_server_bubble_id: bool,
    pub tool_results: Vec<Q>,
    pub unified_mode: UnifiedMode,
    pub supported_tools: Vec<T>,
    pub external_links: Vec<L>,
    pub web_references: Vec<R>,
    pub use_web: Option<U>,
}

/// The images of a planned human turn were processed, each to what
/// `process_image` gives for it, in order.
pub open spec fn images_processed<I, P: Fn(ImageUrl) -> Result<I, AdapterError>>(
    urls: Seq<ImageUrl>,
    images: Seq<I>,
    process_image: P,
) -> bool {
    &&& images.len() == urls.len()
    &&& forall|j: int|
        0 <= j < urls.len() ==> call_ensures(process_image, (urls[j],), Ok::<I, AdapterError>(#[trigger] images[j]))
}

/// `c` is the upstream message for the planned turn `p`.
///
/// A human turn is a human message with its text, its images processed, the
/// links `extract_links` finds in its text, no server bubble id and no web
/// references. An assistant turn is an assistant message whose text, web
/// references and web flag are what `extract_web_references` makes of the
/// turn's text. A tool exchange is an assistant message with no text whose
/// one tool result is what `build_tool_result` builds from the exchange's
/// parts. Every assistant message has a server bubble id and no images or
/// links; only a tool exchange has a tool result.
pub open spec fn converted<I, T, L, R, U, Q, P, X, W, B>(
    p: PlannedView,
    c: ConversationMessage<I, T, L, R, U, Q>,
    is_agentic: bool,
    process_image: P,
    extract_links: X,
    extract_web_references: W,
    build_tool_result: B,
) -> bool where
    P: Fn(ImageUrl) -> Result<I, AdapterError>,
    X: Fn(&String) -> Vec<L>,
    W: Fn(String) -> (String, Vec<R>, Option<U>),
    B: Fn(ToolCallParts) -> Result<Q, AdapterError>,
 {
    &&& c.unified_mode == mode_for(is_agentic)
    &&& match p {
        PlannedView::Human { text, images } => {
            &&& c.kind == MessageType::Human
            &&& c.text@ == text
            &&& !c.has_server_bubble_id
            &&& c.tool_results@.len() == 0
            &&& images_processed(images, c.images@, process_image)
            &&& call_ensures(extract_links, (&c.text,), c.external_links)
            &&& c.web_references@.len() == 0
            &&& c.use_web is None
        },
        PlannedView::Ai { text } => {
            &&& c.kind == MessageType::Ai
            &&& c.has_server_bubble_id
            &&& c.tool_results@.len() == 0
            &&& c.images@.len() == 0
            &&& c.external_links@.len() == 0
            &&& exists|raw: String|
                raw@ == text && #[trigger] call_ensures(
                    extract_web_references,
                    (raw,),
                    (c.text, c.web_references, c.use_web),
                )
        },
        PlannedView::ToolExchange { .. } => {
            &&& c.kind == MessageType::Ai
            &&& c.text@.len() == 0
            &&& c.has_server_bubble_id
            &&& c.tool_results@.len() == 1
            &&& exists|x: ToolCallParts|
                parts_of(p, x) && #[trigger] call_ensures(
                    build_tool_result,
                    (x,),
                    Ok::<Q, AdapterError>(c.tool_results@[0]),
                )
            &&& c.images@.len() == 0
            &&& c.external_links@.len() == 0
            &&& c.web_references@.len() == 0
            &&& c.use_web is None
        },
    }
}

/// The message that stands for a conversation with no turn: one empty human
/// message in chat mode, with nothing else.
pub open spec fn is_placeholder<I, T, L, R, U, Q>(c: ConversationMessage<I, T, L, R, U, Q>) -> bool {
    &&& c.kind == MessageType::Human
    &&& c.text@.len() == 0
    &&& !c.has_server_bubble_id
    &&& c.unified_mode == UnifiedMode::Chat
    &&& c.images@.len() == 0
    &&& c.tool_results@.len() == 0
    &&& c.supported_tools@.len() == 0
    &&& c.external_links@.len() == 0
    &&& c.web_references@.len() == 0
    &&& c.use_web is None
}

/// How many steps of a planned turn can fail: one per image of a human turn,
/// one for the tool result of a tool exchange, none for an assistant turn.
pub open spec fn step_count(p: PlannedView) -> int {
    match p {
        PlannedView::Human { images, .. } => images.len() as int,
        PlannedView::Ai { .. } => 0,
        PlannedView::ToolExchange { .. } => 1,
    }
}

/// Step `j` of the planned turn `p` fails with `e`: processing the `j`th
/// image, or building the tool result, gives the error `e`.
pub open spec fn step_fails<I, Q, P, B>(
    p: PlannedView,
    j: int,
    process_image: P,
    build_tool_result: B,
    e: AdapterError,
) -> bool where
    P: Fn(ImageUrl) -> Result<I, AdapterError>,
    B: Fn(ToolCallParts) -> Result<Q, AdapterError>,
 {
    match p {
        PlannedView::Human { images, .. } => call_ensures(
            process_image,
            (images[j],),
            Err::<I, AdapterError>(e),
        ),
        PlannedView::Ai { .. } => false,
        PlannedView::ToolExchange { .. } => exists|x: ToolCallParts|
            parts_of(p, x) && #[trigger] call_ensures(build_tool_result, (x,), Err::<Q, AdapterError>(e)),
    }
}

/// `process_image` can succeed on `u`.
pub open spec fn image_can_succeed<I, P: Fn(ImageUrl) -> Result<I, AdapterError>>(
    process_image: P,
    u: ImageUrl,
) -> bool {
    exists|img: I| #[trigger] call_ensures(process_image, (u,), Ok::<I, AdapterError>(img))
}

/// Step `j` of the planned turn `p` can succeed.
pub open spec fn step_succeeds<I, Q, P, B>(
    p: PlannedView,
    j: int,
    process_image: P,
    build_tool_result: B,
) -> bool where
    P: Fn(ImageUrl) -> Result<I, AdapterError>,
    B: Fn(ToolCallParts) -> Result<Q, AdapterError>,
 {
    match p {
        PlannedView::Human { images, .. } => image_can_succeed::<I, P>(process_image, images[j]),
        PlannedView::Ai { .. } => true,
        PlannedView::ToolExchange { .. } => exists|x: ToolCallParts, q: Q|
            parts_of(p, x) && #[trigger] call_ensures(build_tool_result, (x,), Ok::<Q, AdapterError>(q)),
    }
}

/// Taking the planned turns in order, and the steps of each turn in order,
/// the first step that fails gives `e`: it fails with `e` and every step
/// before it succeeded.
pub open spec fn first_failure<I, Q, P, B>(
    plan: Seq<PlannedView>,
    process_image: P,
    build_tool_result: B,
    e: AdapterError,
) -> bool where
    P: Fn(ImageUrl) -> Result<I, AdapterError>,
    B: Fn(ToolCallParts) -> Result<Q, AdapterError>,
 {
    exists|k: int, j: int|
        0 <= k < plan.len() && 0 <= j < step_count(plan[k]) && #[trigger] step_fails::<I, Q, P, B>(
            plan[k],
            j,
            process_image,
            build_tool_result,
            e,
        ) && forall|k2: int, j2: int|
            ((0 <= k2 < k && 0 <= j2 < step_count(plan[k2])) || (k2 == k && 0 <= j2 < j))
                ==> #[trigger] step_succeeds::<I, Q, P, B>(plan[k2], j2, process_image, build_tool_result)
}

/// What `Openai::process_message_params` gives for the messages `messages`.
///
/// With no message but system ones the conversation is one placeholder
/// message and there are no links. Otherwise the messages are the planned
/// turns converted one by one; the last message carries the supported tools
/// and the others none, and the links are copies of the last message's. An
/// error is the one of the first step that fails.
pub open spec fn message_params_outcome<I, T, L: Clone, R, U, Q, P, X, W, B>(
    messages: Seq<ChatCompletionMessageParam>,
    supported_tools: Seq<T>,
    default_instructions: Seq<char>,
    image_support: bool,
    is_agentic: bool,
    process_image: P,
    extract_links: X,
    extract_web_references: W,
    build_tool_result: B,
    res: Result<(String, Vec<ConversationMessage<I, T, L, R, U, Q>>, Vec<L>), AdapterError>,
) -> bool where
    P: Fn(ImageUrl) -> Result<I, AdapterError>,
    X: Fn(&String) -> Vec<L>,
    W: Fn(String) -> (String, Vec<R>, Option<U>),
    B: Fn(ToolCallParts) -> Result<Q, AdapterError>,
 {
    match res {
        Ok((instr, ms, links)) => {
            &&& instr@ == instructions(messages, default_instructions)
            &&& if non_system(messages).len() == 0 {
                &&& ms@.len() == 1
                &&& is_placeholder(ms@[0])
                &&& links@.len() == 0
            } else {
                let p = planned(non_system(messages), image_support);
                &&& ms@.len() == p.len()
                &&& forall|i: int|
                    0 <= i < p.len() ==> converted(
                        p[i],
                        #[trigger] ms@[i],
                        is_agentic,
                        process_image,
                        extract_links,
                        extract_web_references,
                        build_tool_result,
                    )
                &&& forall|i: int| 0 <= i < ms@.len() - 1 ==> (#[trigger] ms@[i]).supported_tools@.len() == 0
                &&& ms@.len() > 0 ==> ms@.last().supported_tools@ == supported_tools
                &&& ms@.len() > 0 ==> links.len() == ms@.last().external_links.len()
                    && forall|k: int| 0 <= k < links.len() ==> cloned::<L>(
                        ms@.last().external_links[k],
                        #[trigger] links[k],
                    )
                &&& ms@.len() == 0 ==> links@.len() == 0
            }
        },
        Err(e) => non_system(messages).len() > 0 && first_failure::<I, Q, P, B>(
            planned(non_system(messages), image_support),
            process_image,
            build_tool_result,
            e,
        ),
    }
}

/// Every step of a converted turn succeeded.
proof fn lemma_converted_steps_succeed<I, T, L, R, U, Q, P, X, W, B>(
    p: PlannedView,
    c: ConversationMessage<I, T, L, R, U, Q>,
    is_agentic: bool,
    process_image: P,
    extract_links: X,
    extract_web_references: W,
    build_tool_result: B,
) where
    P: Fn(ImageUrl) -> Result<I, AdapterError>,
    X: Fn(&String) -> Vec<L>,
    W: Fn(String) -> (String, Vec<R>, Option<U>),
    B: Fn(ToolCallParts) -> Result<Q, AdapterError>,

    requires
        converted(p, c, is_agentic, process_image, extract_links, extract_web_references, build_tool_result),
    ensures
        forall|j: int|
            0 <= j < step_count(p) ==> #[trigger] step_succeeds::<I, Q, P, B>(p, j, process_image, build_tool_result),
{
    assert forall|j: int| 0 <= j < step_count(p) implies #[trigger] step_succeeds::<I, Q, P, B>(
        p,
        j,
        process_image,
        build_tool_result,
    ) by {
        match p {
            PlannedView::Human { images, .. } => {
                assert(call_ensures(process_image, (images[j],), Ok::<I, AdapterError>(c.images@[j])));
            },
            PlannedView::Ai { .. } => {},
            PlannedView::ToolExchange { .. } => {
                let x = choose|x: ToolCallParts|
                    parts_of(p, x) && #[trigger] call_ensures(
                        build_tool_result,
                        (x,),
                        Ok::<Q, AdapterError>(c.tool_results@[0]),
                    );
                assert(parts_of(p, x) && call_ensures(build_tool_result, (x,), Ok::<Q, AdapterError>(c.tool_results@[0])));
            },
        }
    }
}

/// Processes the images of a human turn, in order, stopping at the first
/// failure.
fn process_images<I, P: Fn(ImageUrl) -> Result<I, AdapterError>>(
    urls: Vec<ImageUrl>,
    process_image: &P,
) -> (res: Result<Vec<I>, AdapterError>)
    requires
        forall|u: ImageUrl| call_requires(*process_image, (u,)),
    ensures
        match res {
            Ok(images) => images_processed(urls@, images@, *process_image),
            Err(e) => exists|j: int|
                0 <= j < urls@.len() && #[trigger] call_ensures(
                    *process_image,
                    (urls@[j],),
                    Err::<I, AdapterError>(e),
                ) && forall|j2: int|
                    0 <= j2 < j ==> #[trigger] image_can_succeed::<I, P>(*process_image, urls@[j2]),
        },
{
    let ghost us = urls@;
    let mut images: Vec<I> = Vec::new();
    for u in it: urls.into_iter()
        invariant
            it.seq() == us,
            forall|x: ImageUrl| call_requires(*process_image, (x,)),
            images_processed(us.take(it.index() as int), images@, *process_image),
    {
        let ghost k = it.index() as int;
        let r = process_image(u);
        match r {
            Ok(image) => {
                images.push(image);
                assert(images_processed(us.take(k + 1), images@, *process_image)) by {
                    assert forall|j: int| 0 <= j < k + 1 implies call_ensures(
                        *process_image,
                        (us.take(k + 1)[j],),
                        Ok::<I, AdapterError>(#[trigger] images@[j]),
                    ) by {
                        if j < k {
                            assert(us.take(k + 1)[j] == us.take(k)[j]);
                        }
                    }
                }
            },
            Err(e) => {
                proof {
                    assert forall|j2: int| 0 <= j2 < k implies #[trigger] image_can_succeed::<I, P>(
                        *process_image,
                        us[j2],
                    ) by {
                        assert(us.take(k)[j2] == us[j2]);
                        assert(call_ensures(*process_image, (us[j2],), Ok::<I, AdapterError>(images@[j2])));
                    }
                    assert(call_ensures(*process_image, (us[k],), Err::<I, AdapterError>(e)));
                }
                return Err(e);
            },
        }
    }
    assert(us.take(us.len() as int) =~= us);
    Ok(images)
}

/// The upstream message for one planned turn.
fn convert_message<I, T, L, R, U, Q, P, X, W, B>(
    m: PlannedMessage,
    is_agentic: bool,
    process_image: &P,
    extract_links: &X,
    extract_web_references: &W,
    build_tool_result: &B,
) -> (res: Result<ConversationMessage<I, T, L, R, U, Q>, AdapterError>) where
    P: Fn(ImageUrl) -> Result<I, AdapterError>,
    X: Fn(&String) -> Vec<L>,
    W: Fn(String) -> (String, Vec<R>, Option<U>),
    B: Fn(ToolCallParts) -> Result<Q, AdapterError>,

    requires
        forall|u: ImageUrl| call_requires(*process_image, (u,)),
        forall|s: &String| call_requires(*extract_links, (s,)),
        forall|s: String| call_requires(*extract_web_references, (s,)),
        forall|x: ToolCallParts| call_requires(*build_tool_result, (x,)),
    ensures
        match res {
            Ok(c) => converted(
                m@,
                c,
                is_agentic,
                *process_image,
                *extract_links,
                *extract_web_references,
                *build_tool_result,
            ) && c.supported_tools@.len() == 0,
            Err(e) => exists|j: int|
                0 <= j < step_count(m@) && #[trigger] step_fails::<I, Q, P, B>(
                    m@,
                    j,
                    *process_image,
                    *build_tool_result,
                    e,
                ) && forall|j2: int|
                    0 <= j2 < j ==> #[trigger] step_succeeds::<I, Q, P, B>(
                        m@,
                        j2,
                        *process_image,
                        *build_tool_result,
                    ),
        },
{
    let unified_mode = if is_agentic {
        UnifiedMode::Agent
    } else {
        UnifiedMode::Chat
    };
    let ghost v = m@;
    match m {
        PlannedMessage::Human { text, images } => {
            let ghost urls = images@;
            assert(v == PlannedView::Human { text: text@, images: urls });
            let images = match process_images(images, process_image) {
                Ok(images) => images,
                Err(e) => {
                    proof {
                        let j = choose|j: int|
                            0 <= j < urls.len() && #[trigger] call_ensures(
                                *process_image,
                                (urls[j],),
                                Err::<I, AdapterError>(e),
                            ) && forall|j2: int|
                                0 <= j2 < j ==> #[trigger] image_can_succeed::<I, P>(*process_image, urls[j2]);
                        assert(step_fails::<I, Q, P, B>(v, j, *process_image, *build_tool_result, e));
                        assert forall|j2: int| 0 <= j2 < j implies #[trigger] step_succeeds::<I, Q, P, B>(
                            v,
                            j2,
                            *process_image,
                            *build_tool_result,
                        ) by {}
                    }
                    return Err(e);
                },
            };
            let external_links = extract_links(&text);
            Ok(
                ConversationMessage {
                    kind: MessageType::Human,
                    text,
                    images,
                    has_server_bubble_id: false,
                    tool_results: Vec::new(),
                    unified_mode,
                    supported_tools: Vec::new(),
                    external_links,
                    web_references: Vec::new(),
                    use_web: None,
                },
            )
        },
        PlannedMessage::Ai { text } => {
            let ghost raw = text;
            let (text, web_references, use_web) = extract_web_references(text);
            let c = ConversationMessage {
                kind: MessageType::Ai,
                text,
                images: Vec::new(),
                has_server_bubble_id: true,
                tool_results: Vec::new(),
                unified_mode,
                supported_tools: Vec::new(),
                external_links: Vec::new(),
                web_references,
                use_web,
            };
            assert(call_ensures(*extract_web_references, (raw,), (c.text, c.web_references, c.use_web)));
            Ok(c)
        },
        PlannedMessage::ToolExchange { tool_call_id, name, arguments, result } => {
            let parts = ToolCallParts { tool_call_id, name, arguments, result };
            let ghost gp = parts;
            assert(parts_of(v, gp));
            match build_tool_result(parts) {
                Ok(q) => {
                    let mut tool_results = Vec::new();
                    tool_results.push(q);
                    let c = ConversationMessage {
                        kind: MessageType::Ai,
                        text: String::new(),
                        images: Vec::new(),
                        has_server_bubble_id: true,
                        tool_results,
                        unified_mode,
                        supported_tools: Vec::new(),
                        external_links: Vec::new(),
                        web_references: Vec::new(),
                        use_web: None,
                    };
                    assert(call_ensures(*build_tool_result, (gp,), Ok::<Q, AdapterError>(c.tool_results@[0])));
                    Ok(c)
                },
                Err(e) => {
                    assert(step_fails::<I, Q, P, B>(v, 0, *process_image, *build_tool_result, e));
                    Err(e)
                },
            }
        },
    }
}

impl Openai {
    /// Turns the messages of a request into the system instructions, the
    /// upstream conversation and the external links of its last message.
    ///
    /// With no message but system ones the conversation is one placeholder
    /// message (see `is_placeholder`) and there are no links. Otherwise the
    /// messages are the planned turns (see `planned`) converted one by one
    /// (see `converted`); the last message carries the supported tools and
    /// the others none, and the links are copies of the last message's.
    /// Images and tool results are processed turn by turn, in order, and the
    /// first of them that fails makes the whole call fail with its error
    /// (see `first_failure`).
    pub fn process_message_params<I, T, L: Clone, R, U, Q, P, X, W, B>(
        messages: Vec<ChatCompletionMessageParam>,
        supported_tools: Vec<T>,
        default_instructions: String,
        image_support: bool,
        is_agentic: bool,
        process_image: P,
        extract_links: X,
        extract_web_references: W,
        build_tool_result: B,
    ) -> (res: Result<(String, Vec<ConversationMessage<I, T, L, R, U, Q>>, Vec<L>), AdapterError>) where
        P: Fn(ImageUrl) -> Result<I, AdapterError>,
        X: Fn(&String) -> Vec<L>,
        W: Fn(String) -> (String, Vec<R>, Option<U>),
        B: Fn(ToolCallParts) -> Result<Q, AdapterError>,

        requires
            forall|u: ImageUrl| call_requires(process_image, (u,)),
            forall|s: &String| call_requires(extract_links, (s,)),
            forall|s: String| call_requires(extract_web_references, (s,)),
            forall|x: ToolCallParts| call_requires(build_tool_result, (x,)),
        ensures
            message_params_outcome(
                messages@,
                supported_tools@,
                default_instructions@,
                image_support,
                is_agentic,
                process_image,
                extract_links,
                extract_web_references,
                build_tool_result,
                res,
            ),
    {
        let ghost msgs = messages@;
        let (instr, plan) = Openai::plan_messages(messages, image_support, default_instructions);
        let planned_messages = match plan {
            ConversationPlan::Placeholder => {
                let mut ms: Vec<ConversationMessage<I, T, L, R, U, Q>> = Vec::new();
                ms.push(
                    ConversationMessage {
                        kind: MessageType::Human,
                        text: String::new(),
                        images: Vec::new(),
                        has_server_bubble_id: false,
                        tool_results: Vec::new(),
                        unified_mode: UnifiedMode::Chat,
                        supported_tools: Vec::new(),
                        external_links: Vec::new(),
                        web_references: Vec::new(),
                        use_web: None,
                    },
                );
                return Ok((instr, ms, Vec::new()));
            },
            ConversationPlan::Messages(pm) => pm,
        };
        let ghost pv = plan_views(planned_messages@);
        let mut ms: Vec<ConversationMessage<I, T, L, R, U, Q>> = Vec::new();
        for m in it: planned_messages.into_iter()
            invariant
                it.seq() == planned_messages@,
                pv == plan_views(planned_messages@),
                pv == planned(non_system(msgs), image_support),
                non_system(msgs).len() > 0,
                msgs == messages@,
                forall|u: ImageUrl| call_requires(process_image, (u,)),
                forall|s: &String| call_requires(extract_links, (s,)),
                forall|s: String| call_requires(extract_web_references, (s,)),
                forall|x: ToolCallParts| call_requires(build_tool_result, (x,)),
                ms@.len() == it.index(),
                forall|i: int|
                    0 <= i < ms@.len() ==> converted(
                        pv[i],
                        #[trigger] ms@[i],
                        is_agentic,
                        process_image,
                        extract_links,
                        extract_web_references,
                        build_tool_result,
                    ),
                forall|i: int| 0 <= i < ms@.len() ==> (#[trigger] ms@[i]).supported_tools@.len() == 0,
        {
            let ghost k = it.index() as int;
            assert(pv[k] == m@);
            match convert_message(
                m,
                is_agentic,
                &process_image,
                &extract_links,
                &extract_web_references,
                &build_tool_result,
            ) {
                Ok(c) => {
                    ms.push(c);
                },
                Err(e) => {
                    proof {
                        let j = choose|j: int|
                            0 <= j < step_count(pv[k]) && #[trigger] step_fails::<I, Q, P, B>(
                                pv[k],
                                j,
                                process_image,
                                build_tool_result,
                                e,
                            ) && forall|j2: int|
                                0 <= j2 < j ==> #[trigger] step_succeeds::<I, Q, P, B>(
                                    pv[k],
                                    j2,
                                    process_image,
                                    build_tool_result,
                                );
                        assert forall|k2: int, j2: int|
                            (0 <= k2 < k && 0 <= j2 < step_count(pv[k2])) || (k2 == k && 0 <= j2 < j)
                            implies #[trigger] step_succeeds::<I, Q, P, B>(
                            pv[k2],
                            j2,
                            process_image,
                            build_tool_result,
                        ) by {
                            if k2 < k {
                                lemma_converted_steps_succeed(
                                    pv[k2],
                                    ms@[k2],
                                    is_agentic,
                                    process_image,
                                    extract_links,
                                    extract_web_references,
                                    build_tool_result,
                                );
                            }
                        }
                        assert(first_failure::<I, Q, P, B>(pv, process_image, build_tool_result, e));
                    }
                    return Err(e);
                },
            }
        }
        let n = ms.len();
        if n == 0 {
            return Ok((instr, ms, Vec::new()));
        }
        let mut last = match ms.pop() {
            Some(c) => c,
            None => vstd::pervasive::unreached(),
        };
        let ghost before = last;
        last.supported_tools = supported_tools;
        let links = last.external_links.clone();
        ms.push(last);
        proof {
            assert(converted(
                pv[n - 1],
                ms@[n - 1],
                is_agentic,
                process_image,
                extract_links,
                extract_web_references,
                build_tool_result,
            )) by {
                assert(converted(
                    pv[n - 1],
                    before,
                    is_agentic,
                    process_image,
                    extract_links,
                    extract_web_references,
                    build_tool_result,
                ));
                assert(ms@[n - 1].text == before.text);
                assert(ms@[n - 1].web_references == before.web_references);
                assert(ms@[n - 1].use_web == before.use_web);
                assert(ms@[n - 1].tool_results == before.tool_results);
            }
        }
        Ok((instr, ms, links))
    }
}

/// `process_image` gives one result for each image.
pub open spec fn images_deterministic<I, P: Fn(ImageUrl) -> Result<I, AdapterError>>(
    process_image: P,
) -> bool {
    forall|u: ImageUrl, r1: Result<I, AdapterError>, r2: Result<I, AdapterError>|
        #![trigger call_ensures(process_image, (u,), r1), call_ensures(process_image, (u,), r2)]
        call_ensures(process_image, (u,), r1) && call_ensures(process_image, (u,), r2) ==> r1 == r2
}

/// `x1` and `x2` carry the same parts.
pub open spec fn same_parts(x1: ToolCallParts, x2: ToolCallParts) -> bool {
    &&& x1.tool_call_id@ == x2.tool_call_id@
    &&& x1.name@ == x2.name@
    &&& x1.arguments@ == x2.arguments@
    &&& x1.result == x2.result
}

/// `build_tool_result` gives one result for the same parts.
pub open spec fn tool_results_deterministic<Q, B: Fn(ToolCallParts) -> Result<Q, AdapterError>>(
    build_tool_result: B,
) -> bool {
    forall|x1: ToolCallParts, x2: ToolCallParts, r1: Result<Q, AdapterError>, r2: Result<Q, AdapterError>|
        #![trigger call_ensures(build_tool_result, (x1,), r1), call_ensures(build_tool_result, (x2,), r2)]
        same_parts(x1, x2) && call_ensures(build_tool_result, (x1,), r1) && call_ensures(
            build_tool_result,
            (x2,),
            r2,
        ) ==> r1 == r2
}

/// `extract_web_references` gives one text, list of references and web flag
/// for the same text.
pub open spec fn web_references_deterministic<R, U, W: Fn(String) -> (String, Vec<R>, Option<U>)>(
    extract_web_references: W,
) -> bool {
    forall|s1: String, s2: String, o1: (String, Vec<R>, Option<U>), o2: (String, Vec<R>, Option<U>)|
        #![trigger call_ensures(extract_web_references, (s1,), o1), call_ensures(extract_web_references, (s2,), o2)]
        s1@ == s2@ && call_ensures(extract_web_references, (s1,), o1) && call_ensures(
            extract_web_references,
            (s2,),
            o2,
        ) ==> o1.0@ == o2.0@ && o1.1@ == o2.1@ && o1.2 == o2.2
}

/// `extract_links` gives one list of links for the same text.
pub open spec fn links_deterministic<L, X: Fn(&String) -> Vec<L>>(extract_links: X) -> bool {
    forall|s1: &String, s2: &String, l1: Vec<L>, l2: Vec<L>|
        #![trigger call_ensures(extract_links, (s1,), l1), call_ensures(extract_links, (s2,), l2)]
        s1@ == s2@ && call_ensures(extract_links, (s1,), l1) && call_ensures(extract_links, (s2,), l2)
            ==> l1@ == l2@
}

/// `c1` and `c2` agree in all but their bubble ids.
pub open spec fn same_message<I, T, L, R, U, Q>(
    c1: ConversationMessage<I, T, L, R, U, Q>,
    c2: ConversationMessage<I, T, L, R, U, Q>,
) -> bool {
    &&& c1.kind == c2.kind
    &&& c1.text@ == c2.text@
    &&& c1.images@ == c2.images@
    &&& c1.has_server_bubble_id == c2.has_server_bubble_id
    &&& c1.tool_results@ == c2.tool_results@
    &&& c1.unified_mode == c2.unified_mode
    &&& c1.supported_tools@ == c2.supported_tools@
    &&& c1.external_links@ == c2.external_links@
    &&& c1.web_references@ == c2.web_references@
    &&& c1.use_web == c2.use_web
}

/// A step cannot both succeed and fail, and fails with one error.
proof fn lemma_step_outcome_unique<I, Q, P, B>(
    p: PlannedView,
    j: int,
    process_image: P,
    build_tool_result: B,
    e1: AdapterError,
    e2: AdapterError,
) where
    P: Fn(ImageUrl) -> Result<I, AdapterError>,
    B: Fn(ToolCallParts) -> Result<Q, AdapterError>,

    requires
        images_deterministic::<I, P>(process_image),
        tool_results_deterministic::<Q, B>(build_tool_result),
        step_fails::<I, Q, P, B>(p, j, process_image, build_tool_result, e1),
    ensures
        !step_succeeds::<I, Q, P, B>(p, j, process_image, build_tool_result),
        step_fails::<I, Q, P, B>(p, j, process_image, build_tool_result, e2) ==> e1 == e2,
{
    match p {
        PlannedView::Human { images, .. } => {
            if step_succeeds::<I, Q, P, B>(p, j, process_image, build_tool_result) {
                let img = choose|img: I|
                    #[trigger] call_ensures(process_image, (images[j],), Ok::<I, AdapterError>(img));
                assert(call_ensures(process_image, (images[j],), Ok::<I, AdapterError>(img)));
                assert(call_ensures(process_image, (images[j],), Err::<I, AdapterError>(e1)));
            }
            if step_fails::<I, Q, P, B>(p, j, process_image, build_tool_result, e2) {
                assert(call_ensures(process_image, (images[j],), Err::<I, AdapterError>(e1)));
                assert(call_ensures(process_image, (images[j],), Err::<I, AdapterError>(e2)));
            }
        },
        PlannedView::Ai { .. } => {},
        PlannedView::ToolExchange { .. } => {
            let x1 = choose|x: ToolCallParts|
                parts_of(p, x) && #[trigger] call_ensures(build_tool_result, (x,), Err::<Q, AdapterError>(e1));
            assert(parts_of(p, x1) && call_ensures(build_tool_result, (x1,), Err::<Q, AdapterError>(e1)));
            if step_succeeds::<I, Q, P, B>(p, j, process_image, build_tool_result) {
                let (x2, q) = choose|x: ToolCallParts, q: Q|
                    parts_of(p, x) && #[trigger] call_ensures(build_tool_result, (x,), Ok::<Q, AdapterError>(q));
                assert(parts_of(p, x2) && call_ensures(build_tool_result, (x2,), Ok::<Q, AdapterError>(q)));
                assert(same_parts(x1, x2));
            }
            if step_fails::<I, Q, P, B>(p, j, process_image, build_tool_result, e2) {
                let x2 = choose|x: ToolCallParts|
                    parts_of(p, x) && #[trigger] call_ensures(build_tool_result, (x,), Err::<Q, AdapterError>(e2));
                assert(parts_of(p, x2) && call_ensures(build_tool_result, (x2,), Err::<Q, AdapterError>(e2)));
                assert(same_parts(x1, x2));
            }
        },
    }
}

/// Two messages converted from one planned turn agree in all but their
/// bubble ids and their supported tools.
proof fn lemma_converted_agree<I, T, L, R, U, Q, P, X, W, B>(
    p: PlannedView,
    c1: ConversationMessage<I, T, L, R, U, Q>,
    c2: ConversationMessage<I, T, L, R, U, Q>,
    is_agentic: bool,
    process_image: P,
    extract_links: X,
    extract_web_references: W,
    build_tool_result: B,
) where
    P: Fn(ImageUrl) -> Result<I, AdapterError>,
    X: Fn(&String) -> Vec<L>,
    W: Fn(String) -> (String, Vec<R>, Option<U>),
    B: Fn(ToolCallParts) -> Result<Q, AdapterError>,

    requires
        images_deterministic::<I, P>(process_image),
        tool_results_deterministic::<Q, B>(build_tool_result),
        web_references_deterministic::<R, U, W>(extract_web_references),
        links_deterministic::<L, X>(extract_links),
        converted(p, c1, is_agentic, process_image, extract_links, extract_web_references, build_tool_result),
        converted(p, c2, is_agentic, process_image, extract_links, extract_web_references, build_tool_result),
        c1.supported_tools@ == c2.supported_tools@,
    ensures
        same_message(c1, c2),
{
    match p {
        PlannedView::Human { images, .. } => {
            assert forall|j: int| 0 <= j < images.len() implies c1.images@[j] == c2.images@[j] by {
                assert(call_ensures(process_image, (images[j],), Ok::<I, AdapterError>(c1.images@[j])));
                assert(call_ensures(process_image, (images[j],), Ok::<I, AdapterError>(c2.images@[j])));
            }
            assert(c1.images@ =~= c2.images@);
            assert(call_ensures(extract_links, (&c1.text,), c1.external_links));
            assert(call_ensures(extract_links, (&c2.text,), c2.external_links));
            assert(c1.tool_results@ =~= c2.tool_results@);
            assert(c1.web_references@ =~= c2.web_references@);
        },
        PlannedView::Ai { text } => {
            let raw1 = choose|raw: String|
                raw@ == text && #[trigger] call_ensures(
                    extract_web_references,
                    (raw,),
                    (c1.text, c1.web_references, c1.use_web),
                );
            let raw2 = choose|raw: String|
                raw@ == text && #[trigger] call_ensures(
                    extract_web_references,
                    (raw,),
                    (c2.text, c2.web_references, c2.use_web),
                );
            assert(call_ensures(extract_web_references, (raw1,), (c1.text, c1.web_references, c1.use_web)));
            assert(call_ensures(extract_web_references, (raw2,), (c2.text, c2.web_references, c2.use_web)));
            assert(c1.images@ =~= c2.images@);
            assert(c1.tool_results@ =~= c2.tool_results@);
            assert(c1.external_links@ =~= c2.external_links@);
        },
        PlannedView::ToolExchange { .. } => {
            let x1 = choose|x: ToolCallParts|
                parts_of(p, x) && #[trigger] call_ensures(
                    build_tool_result,
                    (x,),
                    Ok::<Q, AdapterError>(c1.tool_results@[0]),
                );
            let x2 = choose|x: ToolCallParts|
                parts_of(p, x) && #[trigger] call_ensures(
                    build_tool_result,
                    (x,),
                    Ok::<Q, AdapterError>(c2.tool_results@[0]),
                );
            assert(call_ensures(build_tool_result, (x1,), Ok::<Q, AdapterError>(c1.tool_results@[0])));
            assert(call_ensures(build_tool_result, (x2,), Ok::<Q, AdapterError>(c2.tool_results@[0])));
            assert(same_parts(x1, x2));
            assert(c1.tool_results@ =~= c2.tool_results@);
            assert(c1.images@ =~= c2.images@);
            assert(c1.external_links@ =~= c2.external_links@);
            assert(c1.web_references@ =~= c2.web_references@);
            assert(c1.text@ =~= c2.text@);
        },
    }
}

/// Reordering the messages of a request, keeping the order of the system
/// messages among themselves and of the other messages among themselves,
/// changes nothing of what `Openai::process_message_params` gives but the
/// bubble ids, when processing an image, building a tool result and taking
/// out web references or links give one result for one input: both calls
/// succeed or both fail; two failures have the same error; two successes
/// have the same instructions, as many links, and messages that agree one
/// by one in all but their bubble ids.
pub proof fn lemma_reordered_messages_same_outcome<I, T, L: Clone, R, U, Q, P, X, W, B>(
    messages1: Seq<ChatCompletionMessageParam>,
    messages2: Seq<ChatCompletionMessageParam>,
    supported_tools: Seq<T>,
    default_instructions: Seq<char>,
    image_support: bool,
    is_agentic: bool,
    process_image: P,
    extract_links: X,
    extract_web_references: W,
    build_tool_result: B,
    res1: Result<(String, Vec<ConversationMessage<I, T, L, R, U, Q>>, Vec<L>), AdapterError>,
    res2: Result<(String, Vec<ConversationMessage<I, T, L, R, U, Q>>, Vec<L>), AdapterError>,
) where
    P: Fn(ImageUrl) -> Result<I, AdapterError>,
    X: Fn(&String) -> Vec<L>,
    W: Fn(String) -> (String, Vec<R>, Option<U>),
    B: Fn(ToolCallParts) -> Result<Q, AdapterError>,

    requires
        system_messages(messages1) == system_messages(messages2),
        non_system(messages1) == non_system(messages2),
        images_deterministic::<I, P>(process_image),
        tool_results_deterministic::<Q, B>(build_tool_result),
        web_references_deterministic::<R, U, W>(extract_web_references),
        links_deterministic::<L, X>(extract_links),
        message_params_outcome(
            messages1,
            supported_tools,
            default_instructions,
            image_support,
            is_agentic,
            process_image,
            extract_links,
            extract_web_references,
            build_tool_result,
            res1,
        ),
        message_params_outcome(
            messages2,
            supported_tools,
            default_instructions,
            image_support,
            is_agentic,
            process_image,
            extract_links,
            extract_web_references,
            build_tool_result,
            res2,
        ),
    ensures
        res1 is Ok <==> res2 is Ok,
        match (res1, res2) {
            (Ok((instr1, ms1, links1)), Ok((instr2, ms2, links2))) => {
                &&& instr1@ == instr2@
                &&& ms1@.len() == ms2@.len()
                &&& forall|i: int| 0 <= i < ms1@.len() ==> same_message(#[trigger] ms1@[i], ms2@[i])
                &&& links1@.len() == links2@.len()
            },
            (Err(e1), Err(e2)) => e1 == e2,
            _ => true,
        },
{
    lemma_reordering_keeps_result(messages1, messages2, default_instructions, image_support);
    let plan = planned(non_system(messages1), image_support);
    match (res1, res2) {
        (Ok((instr1, ms1, links1)), Ok((instr2, ms2, links2))) => {
            if non_system(messages1).len() == 0 {
                let (c1, c2) = (ms1@[0], ms2@[0]);
                assert(c1.text@ =~= c2.text@);
                assert(c1.images@ =~= c2.images@);
                assert(c1.tool_results@ =~= c2.tool_results@);
                assert(c1.supported_tools@ =~= c2.supported_tools@);
                assert(c1.external_links@ =~= c2.external_links@);
                assert(c1.web_references@ =~= c2.web_references@);
                assert(same_message(ms1@[0], ms2@[0]));
            } else {
                let n = ms1@.len() as int;
                assert forall|i: int| 0 <= i < n implies same_message(#[trigger] ms1@[i], ms2@[i]) by {
                    if i < n - 1 {
                        assert(ms1@[i].supported_tools@ =~= ms2@[i].supported_tools@);
                    }
                    lemma_converted_agree(
                        plan[i],
                        ms1@[i],
                        ms2@[i],
                        is_agentic,
                        process_image,
                        extract_links,
                        extract_web_references,
                        build_tool_result,
                    );
                }
                if n > 0 {
                    assert(same_message(ms1@[n - 1], ms2@[n - 1]));
                }
            }
        },
        (Ok((_, ms1, _)), Err(e2)) => {
            lemma_success_excludes_failure(
                plan,
                ms1@,
                is_agentic,
                process_image,
                extract_links,
                extract_web_references,
                build_tool_result,
                e2,
            );
        },
        (Err(e1), Ok((_, ms2, _))) => {
            lemma_success_excludes_failure(
                plan,
                ms2@,
                is_agentic,
                process_image,
                extract_links,
                extract_web_references,
                build_tool_result,
                e1,
            );
        },
        (Err(e1), Err(e2)) => {
            let (k1, j1) = choose|k: int, j: int|
                0 <= k < plan.len() && 0 <= j < step_count(plan[k]) && #[trigger] step_fails::<I, Q, P, B>(
                    plan[k],
                    j,
                    process_image,
                    build_tool_result,
                    e1,
                ) && forall|k2: int, j2: int|
                    ((0 <= k2 < k && 0 <= j2 < step_count(plan[k2])) || (k2 == k && 0 <= j2 < j))
                        ==> #[trigger] step_succeeds::<I, Q, P, B>(plan[k2], j2, process_image, build_tool_result);
            let (k2, j2) = choose|k: int, j: int|
                0 <= k < plan.len() && 0 <= j < step_count(plan[k]) && #[trigger] step_fails::<I, Q, P, B>(
                    plan[k],
                    j,
                    process_image,
                    build_tool_result,
                    e2,
                ) && forall|k3: int, j3: int|
                    ((0 <= k3 < k && 0 <= j3 < step_count(plan[k3])) || (k3 == k && 0 <= j3 < j))
                        ==> #[trigger] step_succeeds::<I, Q, P, B>(plan[k3], j3, process_image, build_tool_result);
            lemma_step_outcome_unique::<I, Q, P, B>(plan[k1], j1, process_image, build_tool_result, e1, e2);
            lemma_step_outcome_unique::<I, Q, P, B>(plan[k2], j2, process_image, build_tool_result, e2, e1);
            if k1 < k2 || (k1 == k2 && j1 < j2) {
                assert(step_succeeds::<I, Q, P, B>(plan[k1], j1, process_image, build_tool_result));
            } else if k2 < k1 || (k1 == k2 && j2 < j1) {
                assert(step_succeeds::<I, Q, P, B>(plan[k2], j2, process_image, build_tool_result));
            }
        },
    }
}

/// Messages converted from every planned turn leave no step of the plan
/// that fails.
proof fn lemma_success_excludes_failure<I, T, L, R, U, Q, P, X, W, B>(
    plan: Seq<PlannedView>,
    ms: Seq<ConversationMessage<I, T, L, R, U, Q>>,
    is_agentic: bool,
    process_image: P,
    extract_links: X,
    extract_web_references: W,
    build_tool_result: B,
    e: AdapterError,
) where
    P: Fn(ImageUrl) -> Result<I, AdapterError>,
    X: Fn(&String) -> Vec<L>,
    W: Fn(String) -> (String, Vec<R>, Option<U>),
    B: Fn(ToolCallParts) -> Result<Q, AdapterError>,

    requires
        images_deterministic::<I, P>(process_image),
        tool_results_deterministic::<Q, B>(build_tool_result),
        ms.len() == plan.len(),
        forall|i: int|
            0 <= i < plan.len() ==> converted(
                plan[i],
                #[trigger] ms[i],
                is_agentic,
                process_image,
                extract_links,
                extract_web_references,
                build_tool_result,
            ),
    ensures
        !first_failure::<I, Q, P, B>(plan, process_image, build_tool_result, e),
{
    if first_failure::<I, Q, P, B>(plan, process_image, build_tool_result, e) {
        let (k, j) = choose|k: int, j: int|
            0 <= k < plan.len() && 0 <= j < step_count(plan[k]) && #[trigger] step_fails::<I, Q, P, B>(
                plan[k],
                j,
                process_image,
                build_tool_result,
                e,
            ) && forall|k2: int, j2: int|
                ((0 <= k2 < k && 0 <= j2 < step_count(plan[k2])) || (k2 == k && 0 <= j2 < j))
                    ==> #[trigger] step_succeeds::<I, Q, P, B>(plan[k2], j2, process_image, build_tool_result);
        lemma_converted_steps_succeed(
            plan[k],
            ms[k],
            is_agentic,
            process_image,
            extract_links,
            extract_web_references,
            build_tool_result,
        );
        lemma_step_outcome_unique::<I, Q, P, B>(plan[k], j, process_image, build_tool_result, e, e);
    }
}

/// In a successful result every message is in agent mode when the request
/// is agentic and has a message that is not a system one, and in chat mode
/// otherwise; exactly the assistant messages, tool results included, have a
/// server bubble id; and only assistant messages carry tool results.
pub proof fn lemma_outcome_modes_and_bubble_ids<I, T, L: Clone, R, U, Q, P, X, W, B>(
    messages: Seq<ChatCompletionMessageParam>,
    supported_tools: Seq<T>,
    default_instructions: Seq<char>,
    image_support: bool,
    is_agentic: bool,
    process_image: P,
    extract_links: X,
    extract_web_references: W,
    build_tool_result: B,
    res: Result<(String, Vec<ConversationMessage<I, T, L, R, U, Q>>, Vec<L>), AdapterError>,
) where
    P: Fn(ImageUrl) -> Result<I, AdapterError>,
    X: Fn(&String) -> Vec<L>,
    W: Fn(String) -> (String, Vec<R>, Option<U>),
    B: Fn(ToolCallParts) -> Result<Q, AdapterError>,

    requires
        message_params_outcome(
            messages,
            supported_tools,
            default_instructions,
            image_support,
            is_agentic,
            process_image,
            extract_links,
            extract_web_references,
            build_tool_result,
            res,
        ),
    ensures
        res matches Ok((_, ms, _)) ==> forall|i: int|
            0 <= i < ms@.len() ==> {
                &&& (#[trigger] ms@[i]).unified_mode == (if is_agentic && non_system(messages).len() > 0 {
                    UnifiedMode::Agent
                } else {
                    UnifiedMode::Chat
                })
                &&& ms@[i].has_server_bubble_id == (ms@[i].kind == MessageType::Ai)
                &&& ms@[i].tool_results@.len() > 0 ==> ms@[i].kind == MessageType::Ai
            },
{
    match res {
        Ok((_, ms, _)) => {
            if non_system(messages).len() > 0 {
                let p = planned(non_system(messages), image_support);
                assert forall|i: int| 0 <= i < ms@.len() implies {
                    &&& (#[trigger] ms@[i]).unified_mode == (if is_agentic {
                        UnifiedMode::Agent
                    } else {
                        UnifiedMode::Chat
                    })
                    &&& ms@[i].has_server_bubble_id == (ms@[i].kind == MessageType::Ai)
                    &&& ms@[i].tool_results@.len() > 0 ==> ms@[i].kind == MessageType::Ai
                } by {
                    assert(converted(
                        p[i],
                        ms@[i],
                        is_agentic,
                        process_image,
                        extract_links,
                        extract_web_references,
                        build_tool_result,
                    ));
                }
            }
        },
        Err(_) => {},
    }
}

} // verus!
