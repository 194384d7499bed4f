//! Wire shapes of both dialects, as plain data.
//!
//! Sampling parameters that are floating point on the wire
//! (`temperature`, `top_p`) are carried as their IEEE-754 bit patterns:
//! the translation copies them through and never reads them.
use vstd::prelude::*;

verus! {

/// A typed part of a target-dialect message.
pub enum OpenAIContentPart {
    Text { text: String },
    ImageUrl { image_url: OpenAIImageUrl },
}

/// An image reference of the target dialect: a URL and a fidelity hint.
pub struct OpenAIImageUrl {
    pub url: String,
    pub detail: Option<String>,
}

/// Target-dialect message content: plain text or a sequence of parts.
pub enum OpenAIContent {
    String(String),
    Parts(Vec<OpenAIContentPart>),
}

pub struct OpenAIMessage {
    pub role: String,
    pub content: OpenAIContent,
    pub name: Option<String>,
}

/// The `stop` field of a target request: one string, or several.
pub enum OpenAIStop {
    Single(String),
    Many(Vec<String>),
}

pub struct OpenAIRequest {
    pub model: String,
    pub messages: Vec<OpenAIMessage>,
    /// Bit pattern of the `f32` temperature.
    pub temperature: Option<u32>,
    /// Bit pattern of the `f32` nucleus-sampling parameter.
    pub top_p: Option<u32>,
    pub max_tokens: Option<u32>,
    pub stop: Option<OpenAIStop>,
    pub stream: Option<bool>,
    pub user: Option<String>,
}

pub struct OpenAIChoice {
    pub index: u32,
    pub message: OpenAIMessage,
    pub finish_reason: String,
}

pub struct OpenAIUsage {
    pub prompt_tokens: u32,
    pub completion_tokens: u32,
    pub total_tokens: u32,
}

pub struct OpenAIResponse {
    pub id: String,
    pub object: String,
    pub created: u64,
    pub model: String,
    pub choices: Vec<OpenAIChoice>,
    pub usage: OpenAIUsage,
}

pub struct OpenAIModel {
    pub id: String,
    pub object: String,
    pub created: u64,
    pub owned_by: String,
}

pub struct OpenAIModelsResponse {
    pub object: String,
    pub data: Vec<OpenAIModel>,
}

/// The error envelope `{error: {message, type, code?}}`.
pub struct ErrorResponse {
    pub error: ErrorDetail,
}

pub struct ErrorDetail {
    pub message: String,
    pub error_type: String,
    pub code: Option<String>,
}

/// A content block in the shape used by stored conversations.
pub enum ContentBlock {
    Text { text: String },
    Image { source: ImageSource },
}

pub struct ImageSource {
    pub source_type: String,
    pub media_type: String,
    pub data: String,
}

/// A typed content block of the source dialect. `Unsupported` stands for
/// a block whose type is neither text nor image.
pub enum AnthropicContentBlock {
    Text { text: String },
    Image { source: AnthropicImageSource },
    Unsupported,
}

/// Inline image data: an encoding kind (only `base64` is accepted), a
/// media type and the encoded bytes.
pub struct AnthropicImageSource {
    pub source_type: String,
    pub media_type: String,
    pub data: String,
}

/// Source-dialect message content: plain text or a sequence of blocks.
pub enum AnthropicContent {
    String(String),
    Blocks(Vec<AnthropicContentBlock>),
}

pub struct AnthropicMessage {
    pub role: String,
    pub content: AnthropicContent,
}

pub struct AnthropicRequest {
    pub model: String,
    pub max_tokens: u32,
    pub messages: Vec<AnthropicMessage>,
    pub system: Option<String>,
    /// Bit pattern of the `f32` temperature.
    pub temperature: Option<u32>,
    /// Bit pattern of the `f32` nucleus-sampling parameter.
    pub top_p: Option<u32>,
    pub top_k: Option<u32>,
    pub stop_sequences: Option<Vec<String>>,
    pub stream: Option<bool>,
}

pub struct AnthropicUsage {
    pub input_tokens: u32,
    pub output_tokens: u32,
}

pub struct AnthropicResponse {
    pub id: String,
    pub response_type: String,
    pub role: String,
    pub content: Vec<AnthropicContentBlock>,
    pub model: String,
    pub stop_reason: String,
    pub stop_sequence: Option<String>,
    pub usage: AnthropicUsage,
}

} // verus!
