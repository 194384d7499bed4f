//! Conversion of message content between the two dialects.
use vstd::prelude::*;
use vstd::string::*;

use crate::error::ProxyError;
use crate::models::{
    AnthropicContent, AnthropicContentBlock, OpenAIContent, OpenAIContentPart, OpenAIImageUrl,
};

verus! {

/// `data:<mediaType>;base64,<data>`: how inline image data is referenced in
/// the target dialect.
pub open spec fn data_url(media_type: Seq<char>, data: Seq<char>) -> Seq<char> {
    "data:"@ + media_type + ";base64,"@ + data
}

/// The fidelity hint attached to every translated image.
pub open spec fn default_detail() -> Seq<char> {
    "auto"@
}

/// The only encoding kind accepted for inline image data.
pub open spec fn inline_encoding() -> Seq<char> {
    "base64"@
}

/// A source block the target dialect can represent.
pub open spec fn block_supported(b: AnthropicContentBlock) -> bool {
    match b {
        AnthropicContentBlock::Text { .. } => true,
        AnthropicContentBlock::Image { source } => source.source_type@ == inline_encoding(),
        AnthropicContentBlock::Unsupported => false,
    }
}

pub open spec fn blocks_supported(bs: Seq<AnthropicContentBlock>) -> bool {
    forall|i: int| 0 <= i < bs.len() ==> block_supported(#[trigger] bs[i])
}

pub open spec fn content_supported(c: AnthropicContent) -> bool {
    match c {
        AnthropicContent::String(_) => true,
        AnthropicContent::Blocks(bs) => blocks_supported(bs@),
    }
}

/// `p` is the target part for the supported source block `b`: text is kept
/// as it is, an image becomes a data URL with the default fidelity hint.
pub open spec fn part_for_block(b: AnthropicContentBlock, p: OpenAIContentPart) -> bool {
    match b {
        AnthropicContentBlock::Text { text } => p == OpenAIContentPart::Text { text },
        AnthropicContentBlock::Image { source } => match p {
            OpenAIContentPart::ImageUrl { image_url } => {
                &&& image_url.url@ == data_url(source.media_type@, source.data@)
                &&& image_url.detail is Some
                &&& image_url.detail->Some_0@ == default_detail()
            },
            _ => false,
        },
        AnthropicContentBlock::Unsupported => false,
    }
}

/// `t` is the target content for the source content `s`, block by block
/// and in the same order.
pub open spec fn content_for(s: AnthropicContent, t: OpenAIContent) -> bool {
    match s {
        AnthropicContent::String(text) => t == OpenAIContent::String(text),
        AnthropicContent::Blocks(bs) => match t {
            OpenAIContent::Parts(ps) => {
                &&& ps@.len() == bs@.len()
                &&& forall|i: int| 0 <= i < bs@.len() ==> part_for_block(bs@[i], #[trigger] ps@[i])
            },
            _ => false,
        },
    }
}

/// The text parts of a response, in order; every other part is dropped.
pub open spec fn text_blocks(ps: Seq<OpenAIContentPart>) -> Seq<AnthropicContentBlock>
    decreases ps.len(),
{
    if ps.len() == 0 {
        Seq::empty()
    } else {
        let rest = text_blocks(ps.drop_last());
        match ps.last() {
            OpenAIContentPart::Text { text } => rest.push(AnthropicContentBlock::Text { text }),
            _ => rest,
        }
    }
}

/// How many parts of a response are images.
pub open spec fn image_count(ps: Seq<OpenAIContentPart>) -> nat
    decreases ps.len(),
{
    if ps.len() == 0 {
        0
    } else {
        image_count(ps.drop_last()) + if ps.last() is ImageUrl { 1nat } else { 0nat }
    }
}

/// The source blocks for the content of a response message.
pub open spec fn response_blocks(c: OpenAIContent) -> Seq<AnthropicContentBlock> {
    match c {
        OpenAIContent::String(text) => seq![AnthropicContentBlock::Text { text }],
        OpenAIContent::Parts(ps) => text_blocks(ps@),
    }
}

/// Builds `data:<media_type>;base64,<data>`.
pub fn make_data_url(media_type: &String, data: &String) -> (r: String)
    ensures
        r@ == data_url(media_type@, data@),
{
    let mut url = String::from_str("data:");
    url.append(media_type.as_str());
    url.append(";base64,");
    url.append(data.as_str());
    url
}

/// Translates one source block, or reports that it cannot be represented.
pub fn convert_block(block: AnthropicContentBlock) -> (r: Result<OpenAIContentPart, ProxyError>)
    ensures
        block_supported(block) <==> r is Ok,
        r is Ok ==> part_for_block(block, r->Ok_0),
        r is Err ==> r->Err_0 == ProxyError::UnsupportedContent,
{
    match block {
        AnthropicContentBlock::Text { text } => Ok(OpenAIContentPart::Text { text }),
        AnthropicContentBlock::Image { source } => {
            let base64 = String::from_str("base64");
            if source.source_type != base64 {
                return Err(ProxyError::UnsupportedContent);
            }
            let url = make_data_url(&source.media_type, &source.data);
            Ok(
                OpenAIContentPart::ImageUrl {
                    image_url: OpenAIImageUrl { url, detail: Some(String::from_str("auto")) },
                },
            )
        },
        AnthropicContentBlock::Unsupported => Err(ProxyError::UnsupportedContent),
    }
}

/// Translates source content into target content: plain text stays plain
/// text, blocks become parts one for one and in order. Fails with
/// `UnsupportedContent` exactly when some block cannot be represented.
pub fn convert_content(content: AnthropicContent) -> (r: Result<OpenAIContent, ProxyError>)
    ensures
        content_supported(content) <==> r is Ok,
        r is Ok ==> content_for(content, r->Ok_0),
        r is Err ==> r->Err_0 == ProxyError::UnsupportedContent,
{
    match content {
        AnthropicContent::String(text) => Ok(OpenAIContent::String(text)),
        AnthropicContent::Blocks(blocks) => {
            let ghost bs = blocks@;
            assert(content_supported(content) == blocks_supported(bs));
            let mut rest = blocks;
            let mut parts: Vec<OpenAIContentPart> = Vec::new();
            let n = rest.len();
            let mut i: usize = 0;
            while i < n
                invariant
                    n == bs.len(),
                    i <= n,
                    content_supported(content) == blocks_supported(bs),
                    (content matches AnthropicContent::Blocks(b) && b@ == bs),
                    rest@ == bs.subrange(i as int, n as int),
                    parts@.len() == i,
                    forall|j: int| 0 <= j < i ==> block_supported(bs[j]),
                    forall|j: int| 0 <= j < i ==> part_for_block(bs[j], #[trigger] parts@[j]),
                decreases n - i,
            {
                let block = rest.remove(0);
                assert(block == bs[i as int]);
                match convert_block(block) {
                    Ok(part) => parts.push(part),
                    Err(e) => {
                        assert(!block_supported(bs[i as int]));
                        assert(!blocks_supported(bs));
                        return Err(e);
                    },
                }
                i = i + 1;
                assert(rest@ =~= bs.subrange(i as int, n as int));
            }
            Ok(OpenAIContent::Parts(parts))
        },
    }
}

/// Translates response content back: plain text becomes one text block,
/// text parts become text blocks in order, and every other part is dropped.
pub fn response_content(content: OpenAIContent) -> (r: Vec<AnthropicContentBlock>)
    ensures
        r@ == response_blocks(content),
{
    match content {
        OpenAIContent::String(text) => {
            let mut v = Vec::new();
            v.push(AnthropicContentBlock::Text { text });
            assert(v@ =~= seq![AnthropicContentBlock::Text { text }]);
            v
        },
        OpenAIContent::Parts(parts) => {
            let ghost ps = parts@;
            let mut rest = parts;
            let mut blocks: Vec<AnthropicContentBlock> = Vec::new();
            let n = rest.len();
            let mut i: usize = 0;
            while i < n
                invariant
                    n == ps.len(),
                    i <= n,
                    rest@ == ps.subrange(i as int, n as int),
                    blocks@ == text_blocks(ps.subrange(0, i as int)),
                decreases n - i,
            {
                let part = rest.remove(0);
                assert(part == ps[i as int]);
                assert(ps.subrange(0, i + 1).drop_last() =~= ps.subrange(0, i as int));
                match part {
                    OpenAIContentPart::Text { text } => blocks.push(AnthropicContentBlock::Text { text }),
                    OpenAIContentPart::ImageUrl { .. } => {},
                }
                i = i + 1;
                assert(rest@ =~= ps.subrange(i as int, n as int));
            }
            assert(ps.subrange(0, n as int) =~= ps);
            blocks
        },
    }
}

/// How many parts of response content are dropped on the way back.
pub open spec fn dropped_of(c: OpenAIContent) -> nat {
    match c {
        OpenAIContent::String(_) => 0,
        OpenAIContent::Parts(ps) => image_count(ps@),
    }
}

/// Counts the parts that translating this response content drops, so that
/// the loss can be reported.
pub fn count_dropped_parts(content: &OpenAIContent) -> (r: usize)
    ensures
        r == dropped_of(*content),
{
    match content {
        OpenAIContent::String(_) => 0,
        OpenAIContent::Parts(parts) => {
            let n = parts.len();
            let mut i: usize = 0;
            let mut count: usize = 0;
            while i < n
                invariant
                    n == parts@.len(),
                    i <= n,
                    count == image_count(parts@.subrange(0, i as int)),
                    count <= i,
                decreases n - i,
            {
                assert(parts@.subrange(0, i + 1).drop_last() =~= parts@.subrange(0, i as int));
                match &parts[i] {
                    OpenAIContentPart::ImageUrl { .. } => count = count + 1,
                    OpenAIContentPart::Text { .. } => {},
                }
                i = i + 1;
            }
            assert(parts@.subrange(0, n as int) =~= parts@);
            count
        },
    }
}

/// Dropping non-text parts shortens a response by exactly the number of
/// image parts in it.
pub proof fn lemma_dropped_parts(ps: Seq<OpenAIContentPart>)
    ensures
        text_blocks(ps).len() + image_count(ps) == ps.len(),
    decreases ps.len(),
{
    if ps.len() > 0 {
        lemma_dropped_parts(ps.drop_last());
    }
}

} // verus!
