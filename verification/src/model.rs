//! The OpenAI chat-completion wire model: the request, its messages and
//! content parts, the (streamed) response, usage, and the error body.

use vstd::prelude::*;
use crate::text::{join, views};

pub mod chat_completion;
pub mod chat_completion_chunk;
pub mod chat_completion_message_tool_call;

verus! {

#[verifier::external_type_specification]
#[verifier::external_body]
pub struct ExJsonValue(serde_json::Value);

/// A chat-completion request.
pub struct ChatCompletionCreateParams {
    pub model: String,
    pub messages: Vec<ChatCompletionMessageParam>,
    pub stream: bool,
    pub stream_options: ChatCompletionStreamOptions,
    pub tools: Vec<ChatCompletionTool>,
}

impl ChatCompletionCreateParams {
    /// The messages, the tools, the stream flag and the stream options.
    pub fn strip(self) -> (res: (
        Vec<ChatCompletionMessageParam>,
        Vec<ChatCompletionTool>,
        bool,
        ChatCompletionStreamOptions,
    ))
        ensures
            res == (self.messages, self.tools, self.stream, self.stream_options),
    {
        (self.messages, self.tools, self.stream, self.stream_options)
    }
}

/// One message of a request, by role (`developer` is read as `system`).
pub enum ChatCompletionMessageParam {
    System { content: ChatCompletionContentText },
    User { content: ChatCompletionContent },
    /// The content may be absent, for instance when there are only tool calls.
    Assistant {
        content: Option<ChatCompletionContentText>,
        tool_calls: Option<Vec<ChatCompletionMessageToolCall>>,
    },
    Tool { content: ChatCompletionContentText, tool_call_id: String },
}

/// The content of a user message: a string or a list of parts.
pub enum ChatCompletionContent {
    String(String),
    Array(Vec<ChatCompletionContentPart>),
}

/// One part of a user message.
pub enum ChatCompletionContentPart {
    Text { text: String },
    ImageUrl { image_url: ImageUrl },
}

/// Text content: a string or a list of text parts.
pub enum ChatCompletionContentText {
    String(String),
    Array(Vec<ChatCompletionContentPartText>),
}

/// One part of text content.
pub enum ChatCompletionContentPartText {
    Text { text: String },
    /// Reasoning content.
    Thinking { thinking: String },
    /// Tool input and the like.
    InputJson { input: String },
    /// A part of a type that is not known.
    Other,
}

/// The text a part stands for: its text or its thinking; nothing for the others.
pub open spec fn part_text(p: ChatCompletionContentPartText) -> Seq<char> {
    match p {
        ChatCompletionContentPartText::Text { text } => text@,
        ChatCompletionContentPartText::Thinking { thinking } => thinking@,
        _ => Seq::empty(),
    }
}

/// The texts of the parts, in order.
pub open spec fn part_texts(ps: Seq<ChatCompletionContentPartText>) -> Seq<Seq<char>> {
    ps.map_values(|p: ChatCompletionContentPartText| part_text(p))
}

/// The text text content stands for: the string, or the part texts joined by newlines.
pub open spec fn content_text(c: ChatCompletionContentText) -> Seq<char> {
    match c {
        ChatCompletionContentText::String(s) => s@,
        ChatCompletionContentText::Array(ps) => join(part_texts(ps@), seq!['\n']),
    }
}

impl ChatCompletionContentPartText {
    /// The text of the part (see `part_text`).
    pub fn text(self) -> (res: String)
        ensures
            res@ == part_text(self),
    {
        match self {
            Self::Text { text } => text,
            Self::Thinking { thinking } => thinking,
            Self::InputJson { .. } | Self::Other => String::new(),
        }
    }
}

/// The texts of the parts, in order.
pub fn texts_of_parts(parts: Vec<ChatCompletionContentPartText>) -> (res: Vec<String>)
    ensures
        views(res@) == part_texts(parts@),
{
    let ghost ps = parts@;
    let mut res: Vec<String> = Vec::new();
    for p in it: parts.into_iter()
        invariant
            it.seq() == ps,
            res@.len() == it.index(),
            forall|j: int| 0 <= j < it.index() ==> (#[trigger] res@[j])@ == part_text(ps[j]),
    {
        res.push(p.text());
    }
    assert(views(res@) =~= part_texts(ps));
    res
}

impl ChatCompletionContentText {
    /// The text of the content (see `content_text`).
    pub fn text(self) -> (res: String)
        ensures
            res@ == content_text(self),
    {
        match self {
            Self::String(string) => string,
            Self::Array(contents) => {
                let texts = texts_of_parts(contents);
                proof {
                    reveal_strlit("\n");
                    assert("\n"@ =~= seq!['\n']);
                }
                crate::text::join_strings(texts, "\n")
            },
        }
    }
}

/// A tool call made by the assistant.
pub enum ChatCompletionMessageToolCall {
    Function { id: String, function: chat_completion_message_tool_call::Function },
}

/// The id of a tool call.
pub open spec fn tool_call_id(tc: ChatCompletionMessageToolCall) -> String {
    match tc {
        ChatCompletionMessageToolCall::Function { id, .. } => id,
    }
}

impl ChatCompletionMessageToolCall {
    /// The id of the tool call.
    pub fn id(&self) -> (res: &String)
        ensures
            *res == tool_call_id(*self),
    {
        match self {
            Self::Function { id, .. } => id,
        }
    }
}

/// Options of a streamed response.
pub struct ChatCompletionStreamOptions {
    pub include_usage: bool,
}

impl Default for ChatCompletionStreamOptions {
    /// Usage is not included.
    fn default() -> (res: Self)
        ensures
            !res.include_usage,
    {
        ChatCompletionStreamOptions { include_usage: false }
    }
}

/// A tool that the model may call.
pub enum ChatCompletionTool {
    Function { function: FunctionDefinition },
}

/// The definition of a function tool.
pub struct FunctionDefinition {
    pub name: String,
    pub description: Option<String>,
    pub parameters: Parameters,
}

/// The entries with their keys taken by their characters.
pub open spec fn entry_views(s: Seq<(String, serde_json::Value)>) -> Seq<(Seq<char>, serde_json::Value)> {
    s.map_values(|e: (String, serde_json::Value)| (e.0@, e.1))
}

/// No key occurs twice.
pub open spec fn keys_unique(s: Seq<(Seq<char>, serde_json::Value)>) -> bool {
    forall|i: int, j: int| 0 <= i < j < s.len() ==> (#[trigger] s[i]).0 != (#[trigger] s[j]).0
}

/// The index of the entry with the key `k`.
pub open spec fn key_index(s: Seq<(Seq<char>, serde_json::Value)>, k: Seq<char>) -> Option<int> {
    if exists|i: int| 0 <= i < s.len() && (#[trigger] s[i]).0 == k {
        Some(choose|i: int| 0 <= i < s.len() && (#[trigger] s[i]).0 == k)
    } else {
        None
    }
}

/// The map that entries read in order make: a key keeps the place where it
/// first occurs and takes the value it last occurs with.
pub open spec fn merged(s: Seq<(Seq<char>, serde_json::Value)>) -> Seq<(Seq<char>, serde_json::Value)>
    decreases s.len(),
{
    if s.len() == 0 {
        Seq::empty()
    } else {
        let m = merged(s.drop_last());
        let (k, v) = s.last();
        match key_index(m, k) {
            Some(i) => m.update(i, (k, v)),
            None => m.push((k, v)),
        }
    }
}

/// The index of the entry with the key `key`.
fn find_key(entries: &Vec<(String, serde_json::Value)>, key: &String) -> (res: Option<usize>)
    ensures
        match res {
            Some(i) => i < entries@.len() && entry_views(entries@)[i as int].0 == key@,
            None => forall|j: int| 0 <= j < entries@.len() ==> (#[trigger] entry_views(entries@)[j]).0 != key@,
        },
{
    let n = entries.len();
    let mut i: usize = 0;
    while i < n
        invariant
            n == entries@.len(),
            i <= n,
            forall|j: int| 0 <= j < i ==> (#[trigger] entry_views(entries@)[j]).0 != key@,
        decreases n - i,
    {
        if entries[i].0.eq(key) {
            return Some(i);
        }
        i = i + 1;
    }
    None
}

/// The parameters of a function tool: an ordered map from names to JSON values.
pub struct Parameters {
    entries: Vec<(String, serde_json::Value)>,
}

impl View for Parameters {
    type V = Seq<(Seq<char>, serde_json::Value)>;

    closed spec fn view(&self) -> Seq<(Seq<char>, serde_json::Value)> {
        entry_views(self.entries@)
    }
}

impl Parameters {
    #[verifier::type_invariant]
    closed spec fn wf(self) -> bool {
        keys_unique(entry_views(self.entries@))
    }

    /// The map that the entries make when read in order (see `merged`).
    pub fn from_entries(entries: Vec<(String, serde_json::Value)>) -> (res: Parameters)
        ensures
            res@ == merged(entry_views(entries@)),
    {
        let ghost es = entry_views(entries@);
        let mut out: Vec<(String, serde_json::Value)> = Vec::new();
        for e in it: entries.into_iter()
            invariant
                it.seq() == entries@,
                es == entry_views(entries@),
                entry_views(out@) == merged(es.take(it.index() as int)),
                keys_unique(entry_views(out@)),
        {
            let ghost k = it.index() as int;
            let ghost before = entry_views(out@);
            assert(es.take(k + 1).drop_last() =~= es.take(k));
            assert(es.take(k + 1).last() == es[k]);
            assert(es[k] == (e.0@, e.1));
            let (key, value) = e;
            match find_key(&out, &key) {
                Some(i) => {
                    proof {
                        assert(key_index(before, key@) == Some(i as int));
                    }
                    out[i] = (key, value);
                    proof {
                        assert(entry_views(out@) =~= before.update(i as int, (key@, value)));
                    }
                },
                None => {
                    proof {
                        assert(key_index(before, key@) is None);
                    }
                    out.push((key, value));
                    proof {
                        assert(entry_views(out@) =~= before.push((key@, value)));
                    }
                },
            }
        }
        assert(es.take(es.len() as int) =~= es);
        Parameters { entries: out }
    }

    /// The entries, in order; no key occurs twice.
    pub fn entries(&self) -> (res: &Vec<(String, serde_json::Value)>)
        ensures
            entry_views(res@) == self@,
            keys_unique(self@),
    {
        proof {
            use_type_invariant(self);
        }
        &self.entries
    }

    /// The entries, in order; no key occurs twice.
    pub fn into_entries(self) -> (res: Vec<(String, serde_json::Value)>)
        ensures
            entry_views(res@) == self@,
            keys_unique(self@),
    {
        proof {
            use_type_invariant(&self);
        }
        self.entries
    }
}

/// The URL of an image part.
pub struct ImageUrl {
    pub url: String,
}

/// The assistant message of a non-streamed response.
pub struct ChatCompletionMessage {
    pub content: Option<String>,
    pub role: Assistant,
    pub tool_calls: Vec<ChatCompletionMessageToolCall>,
}

/// A non-streamed response; at most one choice.
pub struct ChatCompletion<'a> {
    pub id: &'a str,
    pub choices: Option<chat_completion::Choice>,
    pub created: i64,
    pub model: Option<&'static str>,
    pub object: ObjectChatCompletion,
    pub usage: Option<Usage>,
}

/// One chunk of a streamed response; at most one choice.
pub struct ChatCompletionChunk<'a> {
    pub id: &'a str,
    pub choices: Option<chat_completion_chunk::Choice>,
    pub created: i64,
    pub model: &'static str,
    pub object: ObjectChatCompletionChunk,
    pub usage: Tri<Usage>,
}

/// A field that is left out, written as `null`, or written with a value.
pub enum Tri<T> {
    Undefined,
    Null,
    Value(T),
}

/// The role of a message author.
#[derive(Clone, Copy, PartialEq, Eq, Structural)]
pub enum Role {
    System,
    User,
    Assistant,
    Tool,
}

/// Why a choice ended.
#[derive(Clone, Copy, PartialEq, Eq, Structural)]
pub enum FinishReason {
    Stop,
    ToolCalls,
}

/// Details of the prompt tokens.
pub struct PromptTokensDetails {
    pub cached_tokens: i32,
}

impl PromptTokensDetails {
    /// No cached tokens.
    pub fn is_zero(&self) -> (res: bool)
        ensures
            res == (self.cached_tokens == 0),
    {
        self.cached_tokens == 0
    }
}

impl Default for PromptTokensDetails {
    /// No cached tokens.
    fn default() -> (res: Self)
        ensures
            res.cached_tokens == 0,
    {
        PromptTokensDetails { cached_tokens: 0 }
    }
}

/// Token usage of a response.
pub struct Usage {
    pub prompt_tokens: i32,
    pub completion_tokens: i32,
    pub total_tokens: i32,
    pub prompt_tokens_details: PromptTokensDetails,
}

impl Default for Usage {
    /// All counts zero.
    fn default() -> (res: Self)
        ensures
            res.prompt_tokens == 0 && res.completion_tokens == 0 && res.total_tokens == 0
                && res.prompt_tokens_details.cached_tokens == 0,
    {
        Usage {
            prompt_tokens: 0,
            completion_tokens: 0,
            total_tokens: 0,
            prompt_tokens_details: PromptTokensDetails::default(),
        }
    }
}

/// The constant role `assistant`.
#[derive(Clone, Copy)]
pub struct Assistant;

/// The constant object type `chat.completion`.
#[derive(Clone, Copy)]
pub struct ObjectChatCompletion;

/// The constant object type `chat.completion.chunk`.
#[derive(Clone, Copy)]
pub struct ObjectChatCompletionChunk;

/// The constant empty string.
#[derive(Clone, Copy)]
pub struct EmptyString;

/// The detail of an error response.
pub struct ErrorDetail {
    pub code: Option<String>,
    pub message: String,
}

impl ErrorDetail {
    /// The error response carrying this detail.
    pub fn wrapped(self) -> (res: OpenAiError)
        ensures
            res.inner() == self,
    {
        OpenAiError(self)
    }
}

/// The detail of an error response.
pub type OpenAiErrorInner = ErrorDetail;

/// An error response (`type: "error"`, a code, a message and no parameter).
pub struct OpenAiError(ErrorDetail);

impl OpenAiError {
    /// The detail that the error carries.
    pub closed spec fn inner(&self) -> ErrorDetail {
        self.0
    }

    /// The detail that the error carries.
    pub fn detail(&self) -> (res: &ErrorDetail)
        ensures
            *res == self.inner(),
    {
        &self.0
    }
}

} // verus!
