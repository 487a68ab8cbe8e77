//! The adapter from an OpenAI chat request to the conversation that is sent
//! upstream: image data URLs, tools, tool results, and the conversation plan.

use vstd::prelude::*;
use crate::model::{
    content_text, part_texts, texts_of_parts, ChatCompletionContentText, ChatCompletionTool,
    FunctionDefinition, ImageUrl, Parameters,
};
use crate::text::{join, split_once, split_once_spec, starts_with, strip_prefix, views};

verus! {

/// An image format the upstream accepts.
#[derive(Clone, Copy, PartialEq, Eq, Structural, Debug)]
pub enum ImageFormat {
    Png,
    Jpeg,
    Gif,
    WebP,
}

/// Why a request could not be adapted.
#[derive(Clone, Copy, PartialEq, Eq, Structural, Debug)]
pub enum AdapterError {
    /// The data URL has no `;base64,` or its payload is not valid base64.
    Base64DecodeFailed,
    /// The data URL names an image format that is not accepted.
    UnsupportedImageFormat,
}

/// The format a data-URL media subtype names: `png`, `jpg`/`jpeg`, `gif`, `webp`.
pub open spec fn image_format_of(s: Seq<char>) -> Option<ImageFormat> {
    if s == seq!['p', 'n', 'g'] {
        Some(ImageFormat::Png)
    } else if s == seq!['j', 'p', 'g'] || s == seq!['j', 'p', 'e', 'g'] {
        Some(ImageFormat::Jpeg)
    } else if s == seq!['g', 'i', 'f'] {
        Some(ImageFormat::Gif)
    } else if s == seq!['w', 'e', 'b', 'p'] {
        Some(ImageFormat::WebP)
    } else {
        None
    }
}

/// The prefix of an image data URL.
pub open spec fn data_image_prefix() -> Seq<char> {
    seq!['d', 'a', 't', 'a', ':', 'i', 'm', 'a', 'g', 'e', '/']
}

/// The separator between the media subtype and the base64 payload.
pub open spec fn base64_separator() -> Seq<char> {
    seq![';', 'b', 'a', 's', 'e', '6', '4', ',']
}

/// What the part of a data URL after `data:image/` is split into: the format
/// and the base64 payload, or the error for a missing separator or a format
/// that is not accepted.
pub open spec fn split_base64_image_spec(url: Seq<char>) -> Result<(ImageFormat, Seq<char>), AdapterError> {
    match split_once_spec(url, base64_separator()) {
        None => Err(AdapterError::Base64DecodeFailed),
        Some((format, data)) => match image_format_of(format) {
            Some(f) => Ok((f, data)),
            None => Err(AdapterError::UnsupportedImageFormat),
        },
    }
}

/// The bytes that the standard base64 alphabet with padding decodes `data` to,
/// `None` where `data` is not valid.
pub uninterp spec fn base64_standard_decode(data: Seq<char>) -> Option<Seq<u8>>;

#[verifier::external_type_specification]
#[verifier::external_body]
pub struct ExBase64Error(base64_simd::Error);

/// Decodes `data` with `base64_simd::STANDARD.decode_to_vec`.
///
/// The contract claims that the call is a function of `data` alone: it
/// succeeds exactly when `base64_standard_decode` gives bytes, and then gives
/// those bytes. What the decoding is, is not stated.
#[verifier::external_body]
fn decode_base64(data: &str) -> (res: Result<Vec<u8>, base64_simd::Error>)
    ensures
        match res {
            Ok(v) => base64_standard_decode(data@) == Some(v@),
            Err(_) => base64_standard_decode(data@) is None,
        },
{
    base64_simd::STANDARD.decode_to_vec(data)
}

/// `a` and `b` hold the same characters.
fn str_eq(a: &str, b: &str) -> (res: bool)
    ensures
        res == (a@ == b@),
{
    let n = a.unicode_len();
    if n != b.unicode_len() {
        return false;
    }
    let mut i: usize = 0;
    while i < n
        invariant
            n == a@.len(),
            n == b@.len(),
            i <= n,
            forall|j: int| 0 <= j < i ==> a@[j] == b@[j],
        decreases n - i,
    {
        if a.get_char(i) != b.get_char(i) {
            return false;
        }
        i = i + 1;
    }
    assert(a@ =~= b@);
    true
}

/// The format named by a media subtype.
pub fn image_format(format: &str) -> (res: Option<ImageFormat>)
    ensures
        res == image_format_of(format@),
{
    proof {
        reveal_strlit("png");
        reveal_strlit("jpg");
        reveal_strlit("jpeg");
        reveal_strlit("gif");
        reveal_strlit("webp");
        assert("png"@ =~= seq!['p', 'n', 'g']);
        assert("jpg"@ =~= seq!['j', 'p', 'g']);
        assert("jpeg"@ =~= seq!['j', 'p', 'e', 'g']);
        assert("gif"@ =~= seq!['g', 'i', 'f']);
        assert("webp"@ =~= seq!['w', 'e', 'b', 'p']);
    }
    if str_eq(format, "png") {
        Some(ImageFormat::Png)
    } else if str_eq(format, "jpg") || str_eq(format, "jpeg") {
        Some(ImageFormat::Jpeg)
    } else if str_eq(format, "gif") {
        Some(ImageFormat::Gif)
    } else if str_eq(format, "webp") {
        Some(ImageFormat::WebP)
    } else {
        None
    }
}

impl ImageUrl {
    /// The part of a `data:image/` URL after that prefix (`Ok`), or the whole
    /// URL when it is not such a data URL (`Err`).
    pub fn extract(&self) -> (res: Result<&str, &str>)
        ensures
            match res {
                Ok(rest) => starts_with(self.url@, data_image_prefix()) && rest@ == self.url@.skip(
                    data_image_prefix().len() as int,
                ),
                Err(url) => !starts_with(self.url@, data_image_prefix()) && url@ == self.url@,
            },
    {
        proof {
            reveal_strlit("data:image/");
            assert("data:image/"@ =~= data_image_prefix());
        }
        let url = self.url.as_str();
        if let Some(rest) = strip_prefix(url, "data:image/") {
            Ok(rest)
        } else {
            Err(url)
        }
    }
}

/// Splits the part of a data URL after `data:image/` into its format and its
/// base64 payload (see `split_base64_image_spec`).
pub fn split_base64_image(url: &str) -> (res: Result<(ImageFormat, &str), AdapterError>)
    ensures
        match res {
            Ok((f, data)) => split_base64_image_spec(url@) == Ok::<(ImageFormat, Seq<char>), AdapterError>((f, data@)),
            Err(e) => split_base64_image_spec(url@) == Err::<(ImageFormat, Seq<char>), AdapterError>(e),
        },
{
    proof {
        reveal_strlit(";base64,");
        assert(";base64,"@ =~= base64_separator());
    }
    match split_once(url, ";base64,") {
        None => Err(AdapterError::Base64DecodeFailed),
        Some((format, data)) => match image_format(format) {
            Some(f) => Ok((f, data)),
            None => Err(AdapterError::UnsupportedImageFormat),
        },
    }
}

/// The image made of a decoded payload and its format; a payload that did
/// not decode is a decoding failure.
pub fn decoded_image(decoded: Option<Vec<u8>>, format: ImageFormat) -> (res: Result<(Vec<u8>, ImageFormat), AdapterError>)
    ensures
        match decoded {
            Some(bytes) => res == Ok::<(Vec<u8>, ImageFormat), AdapterError>((bytes, format)),
            None => res == Err::<(Vec<u8>, ImageFormat), AdapterError>(AdapterError::Base64DecodeFailed),
        },
{
    match decoded {
        Some(bytes) => Ok((bytes, format)),
        None => Err(AdapterError::Base64DecodeFailed),
    }
}

/// The texts that a tool result hands to the result builder, in order: the
/// string, or the text of every part.
pub open spec fn result_pieces(c: ChatCompletionContentText) -> Seq<Seq<char>> {
    match c {
        ChatCompletionContentText::String(s) => seq![s@],
        ChatCompletionContentText::Array(ps) => part_texts(ps@),
    }
}

/// The number of pieces a tool result is made of.
pub open spec fn piece_count(c: ChatCompletionContentText) -> nat {
    match c {
        ChatCompletionContentText::String(_) => 1,
        ChatCompletionContentText::Array(ps) => ps@.len(),
    }
}

impl ChatCompletionContentText {
    /// A tool result given as text is never an error.
    pub fn is_error(&self) -> (res: bool)
        ensures
            !res,
    {
        false
    }

    /// The number of pieces the result is made of.
    pub fn size_hint(&self) -> (res: Option<usize>)
        ensures
            res matches Some(n) && n == piece_count(*self),
    {
        Some(
            match self {
                ChatCompletionContentText::String(..) => 1,
                ChatCompletionContentText::Array(cs) => cs.len(),
            },
        )
    }

    /// Hands the pieces of the result to `builder`, in order.
    pub fn add_to(self, builder: &mut Vec<String>)
        ensures
            views(final(builder)@) == views(old(builder)@) + result_pieces(self),
    {
        let ghost start = views(builder@);
        let ghost pieces = result_pieces(self);
        match self {
            ChatCompletionContentText::String(text) => {
                let ghost before = builder@;
                builder.push(text);
                assert(views(builder@) =~= views(before).push(text@));
                assert(views(builder@) =~= start + pieces);
            },
            ChatCompletionContentText::Array(cs) => {
                let texts = texts_of_parts(cs);
                let n = texts.len();
                for t in it: texts.into_iter()
                    invariant
                        it.seq() == texts@,
                        n == texts@.len(),
                        views(texts@) == pieces,
                        views(builder@) =~= start + pieces.take(it.index() as int),
                {
                    let ghost k = it.index() as int;
                    assert(t == texts@[k]);
                    assert(pieces[k] == texts@[k]@);
                    let ghost before = builder@;
                    builder.push(t);
                    assert(views(builder@) =~= views(before).push(texts@[k]@));
                    assert(pieces.take(k + 1) =~= pieces.take(k).push(texts@[k]@));
                }
                assert(pieces.take(n as int) =~= pieces);
            },
        }
    }
}

/// The pieces of a result are exactly as many as its size hint says.
pub proof fn lemma_size_hint_counts_pieces(c: ChatCompletionContentText)
    ensures
        piece_count(c) == result_pieces(c).len(),
{
}

/// The text of a tool result is the pieces it hands to the builder, joined by newlines.
pub proof fn lemma_text_joins_result_pieces(c: ChatCompletionContentText)
    ensures
        content_text(c) == join(result_pieces(c), seq!['\n']),
{
}

impl FunctionDefinition {
    /// The name, the description and the parameters.
    pub fn extract(self) -> (res: (String, Option<String>, Parameters))
        ensures
            res == (self.name, self.description, self.parameters),
    {
        (self.name, self.description, self.parameters)
    }
}

impl ChatCompletionTool {
    /// The name, the description and the parameters of the function.
    pub fn extract(self) -> (res: (String, Option<String>, Parameters))
        ensures
            match self {
                ChatCompletionTool::Function { function } => res == (
                    function.name,
                    function.description,
                    function.parameters,
                ),
            },
    {
        let ChatCompletionTool::Function { function } = self;
        function.extract()
    }
}

/// The adapter for the OpenAI protocol.
pub struct Openai;

impl Openai {
    /// The bytes and the format of an image given as the part of a data URL
    /// after `data:image/`: the format before `;base64,`, the payload after it
    /// decoded with the standard base64 alphabet.
    pub fn _process_base64_image(url: &str) -> (res: Result<(Vec<u8>, ImageFormat), AdapterError>)
        ensures
            match split_base64_image_spec(url@) {
                Err(e) => res == Err::<(Vec<u8>, ImageFormat), AdapterError>(e),
                Ok((f, data)) => match base64_standard_decode(data) {
                    Some(bytes) => res matches Ok((v, g)) && v@ == bytes && g == f,
                    None => res == Err::<(Vec<u8>, ImageFormat), AdapterError>(
                        AdapterError::Base64DecodeFailed,
                    ),
                },
            },
    {
        let (format, data) = split_base64_image(url)?;
        let decoded = match decode_base64(data) {
            Ok(bytes) => Some(bytes),
            Err(_) => None,
        };
        decoded_image(decoded, format)
    }
}

/// Exactly five media subtypes name a format: `png` names PNG, `jpg` and
/// `jpeg` name JPEG, `gif` names GIF, `webp` names WebP; every other
/// subtype names none.
pub proof fn lemma_accepted_image_formats(s: Seq<char>)
    ensures
        s == seq!['p', 'n', 'g'] ==> image_format_of(s) == Some(ImageFormat::Png),
        s == seq!['j', 'p', 'g'] ==> image_format_of(s) == Some(ImageFormat::Jpeg),
        s == seq!['j', 'p', 'e', 'g'] ==> image_format_of(s) == Some(ImageFormat::Jpeg),
        s == seq!['g', 'i', 'f'] ==> image_format_of(s) == Some(ImageFormat::Gif),
        s == seq!['w', 'e', 'b', 'p'] ==> image_format_of(s) == Some(ImageFormat::WebP),
        s != seq!['p', 'n', 'g'] && s != seq!['j', 'p', 'g'] && s != seq!['j', 'p', 'e', 'g']
            && s != seq!['g', 'i', 'f'] && s != seq!['w', 'e', 'b', 'p'] ==> image_format_of(s) is None,
{
}

/// An image data URL whose media subtype, the text before its first
/// `;base64,`, is none of `png`, `jpg`, `jpeg`, `gif`, `webp` is refused as
/// an unsupported format, whatever its payload.
pub proof fn lemma_unlisted_format_is_refused(url: Seq<char>, format: Seq<char>, data: Seq<char>)
    requires
        split_once_spec(url, base64_separator()) == Some((format, data)),
        format != seq!['p', 'n', 'g'],
        format != seq!['j', 'p', 'g'],
        format != seq!['j', 'p', 'e', 'g'],
        format != seq!['g', 'i', 'f'],
        format != seq!['w', 'e', 'b', 'p'],
    ensures
        split_base64_image_spec(url) == Err::<(ImageFormat, Seq<char>), AdapterError>(
            AdapterError::UnsupportedImageFormat,
        ),
{
    lemma_accepted_image_formats(format);
}

} // verus!
