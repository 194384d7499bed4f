//! The decisions of the HTTP boundary, in the order the gateway takes them
//! for each call: body size before any parsing, then the parsed request,
//! the rate limiter, translation, routing, and finally the backend's
//! outcome. The transport itself (reading bodies, JSON, the outbound call
//! and its deadline) stays with the caller, which hands the results in.
use vstd::prelude::*;

use crate::config::ProxyConfig;
use crate::error::ProxyError;
use crate::limiter::RateLimiter;
use crate::models::{AnthropicRequest, OpenAIRequest};
use crate::proxy::{request_for, request_supported, ProxyHandler};
use crate::router::{first_match, routable};

verus! {

/// A body of `len` bytes is over the configured ceiling.
pub open spec fn too_large(limits: ProxyConfig, len: u64) -> bool {
    limits.max_request_size matches Some(m) && len > m
}

/// What to do with a body that has arrived.
#[derive(PartialEq, Eq, Structural)]
pub enum Intake {
    /// Parse it as a request.
    Parse,
    /// Answer with this error without parsing it.
    Reject(ProxyError),
}

/// A call ready to go out: the translated request and where to send it.
pub struct Prepared {
    pub request: OpenAIRequest,
    pub base_url: String,
    /// The model the caller asked for, echoed back in the response.
    pub model: String,
}

/// The gateway's state: the read-only configuration, the shared rate
/// limiter, and how many bodies were turned away unparsed.
pub struct Gateway {
    handler: ProxyHandler,
    limiter: RateLimiter,
    skipped_parses: u64,
}

impl Gateway {
    pub closed spec fn handler(&self) -> ProxyHandler {
        self.handler
    }

    pub closed spec fn limiter(&self) -> RateLimiter {
        self.limiter
    }

    /// Bodies rejected before parsing, so far.
    pub closed spec fn skipped(&self) -> u64 {
        self.skipped_parses
    }

    pub open spec fn wf(&self) -> bool {
        &&& self.limiter().wf()
        &&& self.limiter().limit() == self.handler().limits().rate_limit
    }

    /// A gateway whose rate limiter uses windows of `window_secs`, the first
    /// opening at `now`.
    pub fn new(handler: ProxyHandler, window_secs: u64, now: u64) -> (r: Self)
        ensures
            r.wf(),
            r.handler() == handler,
            r.limiter().window_secs() == window_secs,
            r.limiter().window_start() == now,
            r.limiter().count() == 0,
            r.skipped() == 0,
    {
        let limit = handler.proxy_config().rate_limit;
        Gateway { handler, limiter: RateLimiter::new(limit, window_secs, now), skipped_parses: 0 }
    }

    pub fn handler_ref(&self) -> (r: &ProxyHandler)
        ensures
            *r == self.handler(),
    {
        &self.handler
    }

    pub fn skipped_parses(&self) -> (r: u64)
        ensures
            r == self.skipped(),
    {
        self.skipped_parses
    }

    /// Takes the parsed body (`None` when it did not parse) at time `now`
    /// and readies the outbound call: a malformed body fails first and
    /// costs no rate-limit room; then the limiter counts the call; then the
    /// request is translated; then the provider is chosen.
    pub fn prepare(&mut self, parsed: Option<AnthropicRequest>, now: u64) -> (r: Result<Prepared, ProxyError>)
        requires
            old(self).wf(),
        ensures
            final(self).wf(),
            final(self).handler() == old(self).handler(),
            final(self).skipped() == old(self).skipped(),
            parsed is None ==> {
                &&& r == Err::<Prepared, ProxyError>(ProxyError::MalformedRequest)
                &&& final(self).limiter() == old(self).limiter()
            },
            parsed matches Some(req) ==> {
                let admitted = old(self).limiter().admits(now);
                let ps = old(self).handler().providers();
                &&& final(self).limiter() == old(self).limiter().after(now)
                &&& !admitted ==> r == Err::<Prepared, ProxyError>(ProxyError::RateLimited)
                &&& admitted && !request_supported(req) ==> r == Err::<Prepared, ProxyError>(
                    ProxyError::UnsupportedContent,
                )
                &&& admitted && request_supported(req) && !routable(ps, req.model@) ==> r == Err::<
                    Prepared,
                    ProxyError,
                >(ProxyError::NoProviderForModel)
                &&& admitted && request_supported(req) && routable(ps, req.model@) ==> {
                    &&& r is Ok
                    &&& request_for(req, r->Ok_0.request)
                    &&& r->Ok_0.model == req.model
                    &&& exists|i: int|
                        first_match(ps, req.model@, i) && r->Ok_0.base_url == ps[i].base_url
                }
            },
    {
        let req = match parsed {
            Some(req) => req,
            None => return Err(ProxyError::MalformedRequest),
        };
        if !self.limiter.try_acquire(now) {
            return Err(ProxyError::RateLimited);
        }
        let model = req.model.clone();
        let request = match ProxyHandler::anthropic_to_openai(req) {
            Ok(request) => request,
            Err(e) => return Err(e),
        };
        let provider = match self.handler.resolve(&model) {
            Ok(p) => p,
            Err(e) => return Err(e),
        };
        let base_url = provider.base_url.clone();
        Ok(Prepared { request, base_url, model })
    }

    /// Decides on a body of `body_len` bytes before anything reads it: one
    /// over the ceiling is rejected and counted, and never parsed.
    pub fn intake(&mut self, body_len: u64) -> (r: Intake)
        ensures
            r == if too_large(old(self).handler().limits(), body_len) {
                Intake::Reject(ProxyError::PayloadTooLarge)
            } else {
                Intake::Parse
            },
            final(self).handler() == old(self).handler(),
            final(self).limiter() == old(self).limiter(),
            final(self).skipped() == if too_large(old(self).handler().limits(), body_len) {
                if old(self).skipped() == u64::MAX {
                    u64::MAX
                } else {
                    (old(self).skipped() + 1) as u64
                }
            } else {
                old(self).skipped()
            },
    {
        let over = match self.handler.proxy_config().max_request_size {
            Some(m) => body_len > m,
            None => false,
        };
        if over {
            self.skipped_parses = self.skipped_parses.saturating_add(1);
            Intake::Reject(ProxyError::PayloadTooLarge)
        } else {
            Intake::Parse
        }
    }
}

/// How the outbound call ended: past its deadline, without a response
/// (`status` is `None`), or with an HTTP status.
pub open spec fn upstream_outcome(timed_out: bool, status: Option<u16>) -> Result<(), ProxyError> {
    if timed_out {
        Err(ProxyError::UpstreamTimeout)
    } else {
        match status {
            Some(s) => if 200 <= s && s < 300 {
                Ok(())
            } else {
                Err(ProxyError::UpstreamError { status: Some(s) })
            },
            None => Err(ProxyError::UpstreamError { status: None }),
        }
    }
}

/// Classifies the end of an outbound call. A failure is reported as it is,
/// never as success, and carries the backend's status when there is one.
pub fn upstream_result(timed_out: bool, status: Option<u16>) -> (r: Result<(), ProxyError>)
    ensures
        r == upstream_outcome(timed_out, status),
{
    if timed_out {
        return Err(ProxyError::UpstreamTimeout);
    }
    match status {
        Some(s) => {
            if 200 <= s && s < 300 {
                Ok(())
            } else {
                Err(ProxyError::UpstreamError { status: Some(s) })
            }
        },
        None => Err(ProxyError::UpstreamError { status: None }),
    }
}

} // verus!
