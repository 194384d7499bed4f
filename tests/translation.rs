use ccv::config::{DaemonConfig, OpenAICompatible, ProxyConfig};
use ccv::content::{convert_content, count_dropped_parts};
use ccv::error::ProxyError;
use ccv::models::{
    AnthropicContent, AnthropicContentBlock, AnthropicImageSource, AnthropicMessage,
    AnthropicRequest, OpenAIChoice, OpenAIContent, OpenAIContentPart, OpenAIImageUrl,
    OpenAIMessage, OpenAIResponse, OpenAIStop, OpenAIUsage,
};
use ccv::proxy::{map_finish_reason, ProxyHandler};

fn text_message(role: &str, text: &str) -> AnthropicMessage {
    AnthropicMessage { role: role.to_string(), content: AnthropicContent::String(text.to_string()) }
}

fn request(messages: Vec<AnthropicMessage>) -> AnthropicRequest {
    AnthropicRequest {
        model: "m".to_string(),
        max_tokens: 256,
        messages,
        system: None,
        temperature: Some(0.5f32.to_bits()),
        top_p: None,
        top_k: Some(5),
        stop_sequences: None,
        stream: Some(false),
    }
}

fn png_block(source_type: &str) -> AnthropicContentBlock {
    AnthropicContentBlock::Image {
        source: AnthropicImageSource {
            source_type: source_type.to_string(),
            media_type: "image/png".to_string(),
            data: "AAA=".to_string(),
        },
    }
}

fn response(choices: Vec<OpenAIChoice>) -> OpenAIResponse {
    OpenAIResponse {
        id: "resp-1".to_string(),
        object: "chat.completion".to_string(),
        created: 1,
        model: "backend-internal".to_string(),
        choices,
        usage: OpenAIUsage { prompt_tokens: 11, completion_tokens: 7, total_tokens: 18 },
    }
}

fn choice(content: OpenAIContent, finish: &str) -> OpenAIChoice {
    OpenAIChoice {
        index: 0,
        message: OpenAIMessage { role: "assistant".to_string(), content, name: None },
        finish_reason: finish.to_string(),
    }
}

#[test]
fn image_block_becomes_data_url() {
    let content = AnthropicContent::Blocks(vec![png_block("base64")]);
    match convert_content(content) {
        Ok(OpenAIContent::Parts(parts)) => {
            assert_eq!(parts.len(), 1);
            match &parts[0] {
                OpenAIContentPart::ImageUrl { image_url } => {
                    assert_eq!(image_url.url, "data:image/png;base64,AAA=");
                    assert_eq!(image_url.detail.as_deref(), Some("auto"));
                }
                _ => panic!("expected an image part"),
            }
        }
        _ => panic!("expected parts"),
    }
}

#[test]
fn blocks_keep_their_order() {
    let content = AnthropicContent::Blocks(vec![
        AnthropicContentBlock::Text { text: "a".to_string() },
        png_block("base64"),
        AnthropicContentBlock::Text { text: "b".to_string() },
    ]);
    match convert_content(content) {
        Ok(OpenAIContent::Parts(parts)) => {
            assert_eq!(parts.len(), 3);
            assert!(matches!(&parts[0], OpenAIContentPart::Text { text } if text == "a"));
            assert!(matches!(&parts[1], OpenAIContentPart::ImageUrl { .. }));
            assert!(matches!(&parts[2], OpenAIContentPart::Text { text } if text == "b"));
        }
        _ => panic!("expected parts"),
    }
}

#[test]
fn plain_string_content_is_kept() {
    match convert_content(AnthropicContent::String("hello".to_string())) {
        Ok(OpenAIContent::String(s)) => assert_eq!(s, "hello"),
        _ => panic!("expected a plain string"),
    }
}

#[test]
fn non_base64_image_is_unsupported() {
    let content = AnthropicContent::Blocks(vec![png_block("url")]);
    assert!(matches!(convert_content(content), Err(ProxyError::UnsupportedContent)));
}

#[test]
fn unknown_block_is_unsupported() {
    let req = request(vec![AnthropicMessage {
        role: "user".to_string(),
        content: AnthropicContent::Blocks(vec![AnthropicContentBlock::Unsupported]),
    }]);
    assert!(matches!(ProxyHandler::anthropic_to_openai(req), Err(ProxyError::UnsupportedContent)));
}

#[test]
fn system_prompt_comes_first() {
    let mut req = request(vec![text_message("user", "hi"), text_message("assistant", "yo")]);
    req.system = Some("be brief".to_string());
    let out = ProxyHandler::anthropic_to_openai(req).ok().unwrap();
    assert_eq!(out.messages.len(), 3);
    assert_eq!(out.messages[0].role, "system");
    assert!(matches!(&out.messages[0].content, OpenAIContent::String(s) if s == "be brief"));
    assert_eq!(out.messages[1].role, "user");
    assert_eq!(out.messages[2].role, "assistant");
    assert!(matches!(&out.messages[2].content, OpenAIContent::String(s) if s == "yo"));
    assert_eq!(out.max_tokens, Some(256));
    assert_eq!(out.model, "m");
    assert_eq!(out.temperature, Some(0.5f32.to_bits()));
    assert_eq!(out.stream, Some(false));
    assert!(out.user.is_none());
    assert!(out.stop.is_none());
}

fn stop_of(seqs: Option<Vec<&str>>) -> Option<OpenAIStop> {
    let mut req = request(vec![text_message("user", "hi")]);
    req.stop_sequences = seqs.map(|v| v.into_iter().map(|s| s.to_string()).collect());
    ProxyHandler::anthropic_to_openai(req).ok().unwrap().stop
}

#[test]
fn stop_sequences_by_count() {
    assert!(stop_of(None).is_none());
    assert!(stop_of(Some(vec![])).is_none());
    assert!(matches!(stop_of(Some(vec!["x"])), Some(OpenAIStop::Single(s)) if s == "x"));
    match stop_of(Some(vec!["x", "y"])) {
        Some(OpenAIStop::Many(v)) => assert_eq!(v, vec!["x".to_string(), "y".to_string()]),
        _ => panic!("expected an array"),
    }
}

#[test]
fn finish_reasons_map_by_table() {
    assert_eq!(map_finish_reason(&"stop".to_string()), "end_turn");
    assert_eq!(map_finish_reason(&"length".to_string()), "max_tokens");
    assert_eq!(map_finish_reason(&"content_filter".to_string()), "end_turn");
    assert_eq!(map_finish_reason(&"tool_calls".to_string()), "end_turn");
    assert_eq!(map_finish_reason(&"".to_string()), "end_turn");
}

#[test]
fn zero_choices_give_one_empty_text_block() {
    let out = ProxyHandler::openai_to_anthropic(response(vec![]), "asked-model");
    assert_eq!(out.content.len(), 1);
    assert!(matches!(&out.content[0], AnthropicContentBlock::Text { text } if text.is_empty()));
    assert_eq!(out.stop_reason, "end_turn");
    assert_eq!(out.model, "asked-model");
}

#[test]
fn response_fields_are_translated() {
    let out = ProxyHandler::openai_to_anthropic(
        response(vec![
            choice(OpenAIContent::String("first".to_string()), "length"),
            choice(OpenAIContent::String("second".to_string()), "stop"),
        ]),
        "asked-model",
    );
    assert_eq!(out.id, "resp-1");
    assert_eq!(out.response_type, "message");
    assert_eq!(out.role, "assistant");
    assert_eq!(out.model, "asked-model");
    assert_eq!(out.stop_reason, "max_tokens");
    assert!(out.stop_sequence.is_none());
    assert_eq!(out.usage.input_tokens, 11);
    assert_eq!(out.usage.output_tokens, 7);
    assert_eq!(out.content.len(), 1);
    assert!(matches!(&out.content[0], AnthropicContentBlock::Text { text } if text == "first"));
}

#[test]
fn image_parts_are_dropped_from_responses() {
    let parts = vec![
        OpenAIContentPart::Text { text: "a".to_string() },
        OpenAIContentPart::ImageUrl {
            image_url: OpenAIImageUrl { url: "data:image/png;base64,AAA=".to_string(), detail: None },
        },
        OpenAIContentPart::Text { text: "b".to_string() },
        OpenAIContentPart::ImageUrl {
            image_url: OpenAIImageUrl { url: "https://x/y.png".to_string(), detail: None },
        },
    ];
    let content = OpenAIContent::Parts(parts);
    assert_eq!(count_dropped_parts(&content), 2);
    assert_eq!(count_dropped_parts(&OpenAIContent::String("x".to_string())), 0);
    let out = ProxyHandler::openai_to_anthropic(
        response(vec![choice(content, "stop")]),
        "m",
    );
    assert_eq!(out.content.len(), 2);
    assert!(matches!(&out.content[0], AnthropicContentBlock::Text { text } if text == "a"));
    assert!(matches!(&out.content[1], AnthropicContentBlock::Text { text } if text == "b"));
}

#[test]
fn echoed_text_round_trips() {
    let req = request(vec![text_message("user", "same words")]);
    let out = ProxyHandler::anthropic_to_openai(req).ok().unwrap();
    let echoed = match &out.messages[0].content {
        OpenAIContent::String(s) => OpenAIContent::String(s.clone()),
        _ => panic!("expected a plain string"),
    };
    let back = ProxyHandler::openai_to_anthropic(response(vec![choice(echoed, "stop")]), "m");
    assert_eq!(back.content.len(), 1);
    assert!(matches!(&back.content[0], AnthropicContentBlock::Text { text } if text == "same words"));
}

fn provider(url: &str, models: &[&str]) -> OpenAICompatible {
    OpenAICompatible {
        base_url: url.to_string(),
        models: models.iter().map(|s| s.to_string()).collect(),
    }
}

fn no_limits() -> ProxyConfig {
    ProxyConfig { timeout_seconds: None, max_request_size: None, rate_limit: None }
}

#[test]
fn first_listed_provider_wins() {
    let handler = ProxyHandler::new(
        vec![provider("http://a", &["x"]), provider("http://b", &["m"]), provider("http://c", &["m"])],
        no_limits(),
    );
    let p = handler.resolve(&"m".to_string()).ok().unwrap();
    assert_eq!(p.base_url, "http://b");
}

#[test]
fn unknown_model_has_no_provider() {
    let handler = ProxyHandler::new(vec![provider("http://a", &["x"])], no_limits());
    assert!(matches!(handler.resolve(&"m".to_string()), Err(ProxyError::NoProviderForModel)));
}

#[test]
fn models_are_listed_once() {
    let handler = ProxyHandler::new(
        vec![provider("http://a", &["x", "m"]), provider("http://b", &["m", "y"])],
        no_limits(),
    );
    let list = handler.list_models(42);
    assert_eq!(list.object, "list");
    let ids: Vec<&str> = list.data.iter().map(|m| m.id.as_str()).collect();
    assert_eq!(ids, vec!["x", "m", "y"]);
    assert_eq!(list.data[1].owned_by, "http://a");
    assert_eq!(list.data[2].owned_by, "http://b");
    assert_eq!(list.data[0].object, "model");
    assert_eq!(list.data[0].created, 42);
}

#[test]
fn default_settings() {
    let c = DaemonConfig::default();
    assert_eq!(c.server.bind_addr, "127.0.0.1:3000");
    assert_eq!(c.server.cors_origins, Some(vec!["*".to_string()]));
    assert!(c.providers.is_empty());
    assert_eq!(c.proxy.timeout_seconds, Some(30));
    assert_eq!(c.proxy.max_request_size, Some(1024 * 1024));
    assert_eq!(c.proxy.rate_limit, Some(100));
}
