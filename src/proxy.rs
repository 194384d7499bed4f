//! Request and single-shot response translation, and the handler that
//! holds the configuration snapshot shared by every call.
use vstd::prelude::*;
use vstd::string::*;

use crate::config::{OpenAICompatible, ProxyConfig};
use crate::content::{content_for, part_for_block, text_blocks, content_supported, convert_content, response_blocks, response_content};
use crate::error::ProxyError;
use crate::models::{
    AnthropicContent, AnthropicContentBlock, AnthropicMessage, AnthropicRequest, AnthropicResponse,
    AnthropicUsage, OpenAIContent, OpenAIContentPart, OpenAIMessage, OpenAIModel, OpenAIModelsResponse, OpenAIRequest, OpenAIResponse, OpenAIStop,
};
use crate::router::{find_provider, first_match, routable, serves};

verus! {

/// The source stop reason for a target finish reason. Total: every value
/// that is not in the table ends the turn.
pub open spec fn stop_reason_for(finish: Seq<char>) -> Seq<char> {
    if finish == "stop"@ {
        "end_turn"@
    } else if finish == "length"@ {
        "max_tokens"@
    } else if finish == "content_filter"@ {
        "end_turn"@
    } else {
        "end_turn"@
    }
}

/// `stop` is the target `stop` field for the source stop sequences: none
/// for an absent or empty list, one string for one, an array for more.
pub open spec fn stop_for(seqs: Option<Vec<String>>, stop: Option<OpenAIStop>) -> bool {
    match seqs {
        None => stop is None,
        Some(v) => if v@.len() == 0 {
            stop is None
        } else if v@.len() == 1 {
            stop == Some(OpenAIStop::Single(v@[0]))
        } else {
            stop matches Some(OpenAIStop::Many(w)) && w@ == v@
        },
    }
}

/// Every message of the request can be represented in the target dialect.
pub open spec fn request_supported(req: AnthropicRequest) -> bool {
    forall|i: int|
        0 <= i < req.messages@.len() ==> content_supported(#[trigger] req.messages@[i].content)
}

/// Number of messages put ahead of the translated ones.
pub open spec fn system_offset(req: AnthropicRequest) -> int {
    if req.system is Some {
        1
    } else {
        0
    }
}

/// `t` is the target message for source message `s`.
pub open spec fn message_for(s: AnthropicMessage, t: OpenAIMessage) -> bool {
    &&& t.role == s.role
    &&& content_for(s.content, t.content)
    &&& t.name is None
}

/// `t` is the target request for the source request `s`: the system prompt
/// first, then every message in order, the stop rule, and every scalar
/// copied through, `max_tokens` always set.
pub open spec fn request_for(s: AnthropicRequest, t: OpenAIRequest) -> bool {
    let off = system_offset(s);
    &&& t.model == s.model
    &&& t.messages@.len() == off + s.messages@.len()
    &&& (s.system matches Some(p) ==> {
        &&& t.messages@[0].role@ == "system"@
        &&& t.messages@[0].content == OpenAIContent::String(p)
        &&& t.messages@[0].name is None
    })
    &&& forall|i: int|
        0 <= i < s.messages@.len() ==> message_for(
            #[trigger] s.messages@[i],
            t.messages@[off + i],
        )
    &&& stop_for(s.stop_sequences, t.stop)
    &&& t.max_tokens == Some(s.max_tokens)
    &&& t.temperature == s.temperature
    &&& t.top_p == s.top_p
    &&& t.stream == s.stream
    &&& t.user is None
}

/// `r` is the source response for the target response `t`, requested as
/// model `model`: first choice only, an empty text block when there is
/// none, the caller's model name, and usage copied through.
pub open spec fn response_for(t: OpenAIResponse, model: Seq<char>, r: AnthropicResponse) -> bool {
    &&& r.id == t.id
    &&& r.response_type@ == "message"@
    &&& r.role@ == "assistant"@
    &&& r.model@ == model
    &&& r.stop_sequence is None
    &&& r.usage.input_tokens == t.usage.prompt_tokens
    &&& r.usage.output_tokens == t.usage.completion_tokens
    &&& if t.choices@.len() > 0 {
        &&& r.content@ == response_blocks(t.choices@[0].message.content)
        &&& r.stop_reason@ == stop_reason_for(t.choices@[0].finish_reason@)
    } else {
        &&& r.content@.len() == 1
        &&& r.content@[0] matches AnthropicContentBlock::Text { text }
        &&& text@ == Seq::<char>::empty()
        &&& r.stop_reason@ == stop_reason_for("stop"@)
    }
}

/// Maps a target finish reason to a source stop reason.
pub fn map_finish_reason(finish: &String) -> (r: String)
    ensures
        r@ == stop_reason_for(finish@),
{
    if finish.eq(&String::from_str("stop")) {
        String::from_str("end_turn")
    } else if finish.eq(&String::from_str("length")) {
        String::from_str("max_tokens")
    } else if finish.eq(&String::from_str("content_filter")) {
        String::from_str("end_turn")
    } else {
        String::from_str("end_turn")
    }
}

/// Builds the target `stop` field from the source stop sequences.
pub fn convert_stop(seqs: Option<Vec<String>>) -> (r: Option<OpenAIStop>)
    ensures
        stop_for(seqs, r),
{
    match seqs {
        None => None,
        Some(v) => {
            if v.len() == 0 {
                None
            } else if v.len() == 1 {
                let mut v = v;
                Some(OpenAIStop::Single(v.remove(0)))
            } else {
                Some(OpenAIStop::Many(v))
            }
        },
    }
}

/// The finish-reason table is total: every value gives `end_turn` or
/// `max_tokens`, and every value other than `length` gives `end_turn`.
pub proof fn lemma_finish_reason_total(finish: Seq<char>)
    ensures
        stop_reason_for(finish) == "end_turn"@ || stop_reason_for(finish) == "max_tokens"@,
        finish != "length"@ ==> stop_reason_for(finish) == "end_turn"@,
{
}

/// `e` advertises a model that some provider serves, owned by the first
/// provider that lists it, the one calls for it are routed to.
pub open spec fn model_entry(ps: Seq<OpenAICompatible>, e: OpenAIModel, created: u64) -> bool {
    &&& e.object@ == "model"@
    &&& e.created == created
    &&& exists|i: int| first_match(ps, e.id@, i) && e.owned_by == ps[i].base_url
}

/// Some entry of `data` advertises `m`.
pub open spec fn listed(data: Seq<OpenAIModel>, m: Seq<char>) -> bool {
    exists|k: int| 0 <= k < data.len() && (#[trigger] data[k]).id@ == m
}

/// Whether some entry of `data` advertises `m`.
pub fn contains_id(data: &Vec<OpenAIModel>, m: &String) -> (r: bool)
    ensures
        r == listed(data@, m@),
{
    let n = data.len();
    let mut k: usize = 0;
    while k < n
        invariant
            n == data@.len(),
            k <= n,
            forall|x: int| 0 <= x < k ==> (#[trigger] data@[x]).id@ != m@,
        decreases n - k,
    {
        if data[k].id.eq(m) {
            return true;
        }
        k = k + 1;
    }
    false
}

/// Content that is exactly the text `t`: a plain string, or a single text
/// block.
pub open spec fn single_text(c: AnthropicContent, t: String) -> bool {
    ||| c == AnthropicContent::String(t)
    ||| (c matches AnthropicContent::Blocks(bs) && bs@ == seq![AnthropicContentBlock::Text { text: t }])
}

/// Round trip: a request of one message whose content is the text `t`, with
/// no system prompt, translated to `treq`; a backend that echoes the
/// translated content as its first choice; and the response translated back
/// gives exactly one text block holding `t`.
pub proof fn lemma_echo_round_trip(
    req: AnthropicRequest,
    treq: OpenAIRequest,
    resp: OpenAIResponse,
    model: Seq<char>,
    sresp: AnthropicResponse,
    t: String,
)
    requires
        req.system is None,
        req.messages@.len() == 1,
        single_text(req.messages@[0].content, t),
        request_for(req, treq),
        resp.choices@.len() > 0,
        resp.choices@[0].message.content == treq.messages@[0].content,
        response_for(resp, model, sresp),
    ensures
        sresp.content@ == seq![AnthropicContentBlock::Text { text: t }],
{
    assert(message_for(req.messages@[0], treq.messages@[system_offset(req) + 0]));
    let c = req.messages@[0].content;
    if let AnthropicContent::Blocks(bs) = c {
        if let OpenAIContent::Parts(ps) = treq.messages@[0].content {
            assert(bs@[0] == AnthropicContentBlock::Text { text: t });
            assert(part_for_block(bs@[0], ps@[0]));
            assert(ps@.len() == 1);
            assert(ps@.last() == OpenAIContentPart::Text { text: t });
            assert(ps@.drop_last() =~= Seq::<OpenAIContentPart>::empty());
            assert(text_blocks(ps@.drop_last()) == Seq::<AnthropicContentBlock>::empty());
            assert(text_blocks(ps@) =~= seq![AnthropicContentBlock::Text { text: t }]);
        }
    }
}

/// The gateway's read-only state: the providers in priority order and the
/// limits applied to each call.
pub struct ProxyHandler {
    openai_provider: Vec<OpenAICompatible>,
    proxy_config: ProxyConfig,
}

impl ProxyHandler {
    /// The configured providers, in configuration order.
    pub closed spec fn providers(&self) -> Seq<OpenAICompatible> {
        self.openai_provider@
    }

    /// The configured limits.
    pub closed spec fn limits(&self) -> ProxyConfig {
        self.proxy_config
    }

    pub fn new(openai_provider: Vec<OpenAICompatible>, proxy_config: ProxyConfig) -> (r: Self)
        ensures
            r.providers() == openai_provider@,
            r.limits() == proxy_config,
    {
        ProxyHandler { openai_provider, proxy_config }
    }

    pub fn proxy_config(&self) -> (r: &ProxyConfig)
        ensures
            *r == self.limits(),
    {
        &self.proxy_config
    }

    /// The provider that serves `model`: the first, in configuration order,
    /// that lists it. Fails with `NoProviderForModel` when none does.
    pub fn resolve(&self, model: &String) -> (r: Result<&OpenAICompatible, ProxyError>)
        ensures
            r is Ok <==> routable(self.providers(), model@),
            r is Ok ==> exists|i: int|
                first_match(self.providers(), model@, i) && *r->Ok_0 == self.providers()[i],
            r is Err ==> r->Err_0 == ProxyError::NoProviderForModel,
    {
        match find_provider(&self.openai_provider, model) {
            Some(i) => {
                let p = &self.openai_provider[i];
                assert(first_match(self.providers(), model@, i as int) && *p == self.providers()[i as int]);
                Ok(p)
            },
            None => Err(ProxyError::NoProviderForModel),
        }
    }

    /// The models advertised across all providers, each once, in order of
    /// first appearance, each owned by the provider that serves it.
    pub fn list_models(&self, created: u64) -> (r: OpenAIModelsResponse)
        ensures
            r.object@ == "list"@,
            forall|k: int| 0 <= k < r.data@.len() ==> model_entry(self.providers(), #[trigger] r.data@[k], created),
            forall|a: int, b: int|
                0 <= a < b < r.data@.len() ==> (#[trigger] r.data@[a]).id@ != (#[trigger] r.data@[b]).id@,
            forall|m: Seq<char>| routable(self.providers(), m) ==> #[trigger] listed(r.data@, m),
    {
        let ps = &self.openai_provider;
        let mut data: Vec<OpenAIModel> = Vec::new();
        let n = ps.len();
        let mut i: usize = 0;
        while i < n
            invariant
                ps@ == self.providers(),
                n == ps@.len(),
                i <= n,
                forall|k: int| 0 <= k < data@.len() ==> model_entry(ps@, #[trigger] data@[k], created),
                forall|a: int, b: int|
                    0 <= a < b < data@.len() ==> (#[trigger] data@[a]).id@ != (#[trigger] data@[b]).id@,
                forall|q: int, j: int|
                    0 <= q < i && 0 <= j < ps@[q].models@.len() ==> listed(data@, (#[trigger] ps@[q].models@[j])@),
            decreases n - i,
        {
            let p = &ps[i];
            let mn = p.models.len();
            let mut j: usize = 0;
            while j < mn
                invariant
                    ps@ == self.providers(),
                    n == ps@.len(),
                    i < n,
                    *p == ps@[i as int],
                    mn == p.models@.len(),
                    j <= mn,
                    forall|k: int| 0 <= k < data@.len() ==> model_entry(ps@, #[trigger] data@[k], created),
                    forall|a: int, b: int|
                        0 <= a < b < data@.len() ==> (#[trigger] data@[a]).id@ != (#[trigger] data@[b]).id@,
                    forall|q: int, jj: int|
                        0 <= q < i && 0 <= jj < ps@[q].models@.len() ==> listed(data@, (#[trigger] ps@[q].models@[jj])@),
                    forall|jj: int| 0 <= jj < j ==> listed(data@, (#[trigger] p.models@[jj])@),
                decreases mn - j,
            {
                let m = &p.models[j];
                if !contains_id(&data, m) {
                    proof {
                        assert(serves(ps@[i as int], m@));
                        assert forall|q: int| 0 <= q < i implies !serves(#[trigger] ps@[q], m@) by {
                            if serves(ps@[q], m@) {
                                let jj = choose|jj: int| 0 <= jj < ps@[q].models@.len() && (#[trigger] ps@[q].models@[jj])@ == m@;
                                assert(listed(data@, ps@[q].models@[jj]@));
                            }
                        }
                        assert(first_match(ps@, m@, i as int));
                    }
                    let ghost old_data = data@;
                    data.push(
                        OpenAIModel {
                            id: m.clone(),
                            object: String::from_str("model"),
                            created,
                            owned_by: p.base_url.clone(),
                        },
                    );
                    proof {
                        assert forall|x: Seq<char>| listed(old_data, x) implies listed(data@, x) by {
                            let k = choose|k: int| 0 <= k < old_data.len() && (#[trigger] old_data[k]).id@ == x;
                            assert(data@[k] == old_data[k]);
                        }
                        assert(data@[old_data.len() as int].id@ == m@);
                        assert(listed(data@, m@));
                    }
                }
                j = j + 1;
            }
            i = i + 1;
        }
        proof {
            assert forall|m: Seq<char>| routable(self.providers(), m) implies listed(data@, m) by {
                let q = choose|q: int| 0 <= q < ps@.len() && serves(#[trigger] ps@[q], m);
                let jj = choose|jj: int| 0 <= jj < ps@[q].models@.len() && (#[trigger] ps@[q].models@[jj])@ == m;
                assert(listed(data@, ps@[q].models@[jj]@));
            }
        }
        OpenAIModelsResponse { object: String::from_str("list"), data }
    }

    /// Translates a source request into a target request. Fails with
    /// `UnsupportedContent` exactly when some message holds a block that the
    /// target dialect cannot represent.
    pub fn anthropic_to_openai(anthropic_req: AnthropicRequest) -> (r: Result<OpenAIRequest, ProxyError>)
        ensures
            r is Ok <==> request_supported(anthropic_req),
            r is Ok ==> request_for(anthropic_req, r->Ok_0),
            r is Err ==> r->Err_0 == ProxyError::UnsupportedContent,
    {
        let ghost req = anthropic_req;
        let AnthropicRequest {
            model,
            max_tokens,
            messages,
            system,
            temperature,
            top_p,
            top_k: _,
            stop_sequences,
            stream,
        } = anthropic_req;
        let ghost src = messages@;
        let mut openai_messages: Vec<OpenAIMessage> = Vec::new();
        match system {
            Some(system_content) => {
                openai_messages.push(
                    OpenAIMessage {
                        role: String::from_str("system"),
                        content: OpenAIContent::String(system_content),
                        name: None,
                    },
                );
            },
            None => {},
        }
        let ghost off = system_offset(req);
        let mut rest = messages;
        let n = rest.len();
        let mut i: usize = 0;
        while i < n
            invariant
                req == anthropic_req,
                src == req.messages@,
                off == system_offset(req),
                n == src.len(),
                i <= n,
                rest@ == src.subrange(i as int, n as int),
                openai_messages@.len() == off + i,
                req.system matches Some(p) ==> {
                    &&& openai_messages@[0].role@ == "system"@
                    &&& openai_messages@[0].content == OpenAIContent::String(p)
                    &&& openai_messages@[0].name is None
                },
                forall|j: int| 0 <= j < i ==> content_supported(#[trigger] src[j].content),
                forall|j: int| 0 <= j < i ==> message_for(#[trigger] src[j], openai_messages@[off + j]),
            decreases n - i,
        {
            let message = rest.remove(0);
            assert(message == src[i as int]);
            let AnthropicMessage { role, content } = message;
            match convert_content(content) {
                Ok(openai_content) => {
                    openai_messages.push(OpenAIMessage { role, content: openai_content, name: None });
                },
                Err(e) => {
                    assert(!content_supported(src[i as int].content));
                    return Err(e);
                },
            }
            i = i + 1;
            assert(rest@ =~= src.subrange(i as int, n as int));
        }
        let stop = convert_stop(stop_sequences);
        Ok(
            OpenAIRequest {
                model,
                messages: openai_messages,
                temperature,
                top_p,
                max_tokens: Some(max_tokens),
                stop,
                stream,
                user: None,
            },
        )
    }

    /// Translates a target response back into a source response for a
    /// caller that asked for `original_model`.
    pub fn openai_to_anthropic(openai_resp: OpenAIResponse, original_model: &str) -> (r: AnthropicResponse)
        ensures
            response_for(openai_resp, original_model@, r),
    {
        let OpenAIResponse { id, object: _, created: _, model: _, choices, usage } = openai_resp;
        let ghost cs = choices@;
        let mut choices = choices;
        let (content, stop_reason) = if choices.len() > 0 {
            let choice = choices.remove(0);
            assert(choice == cs[0]);
            let stop_reason = map_finish_reason(&choice.finish_reason);
            (response_content(choice.message.content), stop_reason)
        } else {
            let mut content = Vec::new();
            content.push(AnthropicContentBlock::Text { text: String::new() });
            (content, map_finish_reason(&String::from_str("stop")))
        };
        AnthropicResponse {
            id,
            response_type: String::from_str("message"),
            role: String::from_str("assistant"),
            content,
            model: original_model.to_string(),
            stop_reason,
            stop_sequence: None,
            usage: AnthropicUsage {
                input_tokens: usage.prompt_tokens,
                output_tokens: usage.completion_tokens,
            },
        }
    }
}

} // verus!
