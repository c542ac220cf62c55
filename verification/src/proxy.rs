//! The proxy's hooks, one for each step at which the HTTP engine hands over a
//! request or a response, and the state that they keep for each request.

use crate::chunk::bytes_of;
use crate::deprecation::{views, Deprecation};
use crate::headers::{
    insert_request_header, insert_response_header, is_header_value, lemma_printable_is_value,
    remove_response_header, request_fields, request_line, request_name_count, request_names,
    response_fields, response_name_count, response_names, status_line, HEADER_LIMIT,
};
use crate::mutation::{mutate, mutated, MalformedPayload};
use crate::path::{classified, classify};
use crate::pipeline::{forwarded, names_added, rewritten, ContextView};
use bytes::Bytes;
use pingora_http::{RequestHeader, ResponseHeader};
use std::ops::Deref;
use vstd::prelude::*;
use vstd::utf8::encode_utf8;

verus! {

/// Host name of the upstream API.
pub const PROXY_HOST: &'static str = "api.cloudflare.com";

/// Why a header could not be rewritten. Either way the request fails, and no
/// other request is affected.
#[derive(Debug)]
pub enum HeaderRejected {
    /// The transport refused the field.
    Invalid(Box<pingora_error::Error>),
    /// The header holds too many names to take another.
    Full,
}

/// The proxy: it knows the host name that upstream requests are sent under.
pub struct ProxyServer {
    pub upstream_host: String,
}

/// The state of one request: the fix-ups that apply to it and the response
/// body gathered so far. It belongs to that request alone.
pub struct RequestContext {
    buffer: Vec<u8>,
    deprecations: Vec<Deprecation>,
}

/// The bytes of an optional chunk.
pub open spec fn chunk_view(chunk: Option<Bytes>) -> Option<Seq<u8>> {
    match chunk {
        Some(bytes) => Some(bytes_of(bytes)),
        None => None,
    }
}

impl View for RequestContext {
    type V = ContextView;

    closed spec fn view(&self) -> ContextView {
        ContextView { buffer: self.buffer@, deprecations: views(self.deprecations@) }
    }
}

impl RequestContext {
    #[verifier::type_invariant]
    spec fn buffers_only_when_pending(&self) -> bool {
        self@.well_formed()
    }

    /// The state in which a request starts: no fix-up, nothing buffered.
    pub fn new() -> (ctx: RequestContext)
        ensures
            ctx@ == ContextView::fresh(),
    {
        let ctx = RequestContext { buffer: Vec::new(), deprecations: Vec::new() };
        assert(ctx@.deprecations =~= Seq::empty());
        ctx
    }

    /// The response body gathered so far.
    pub fn buffer(&self) -> (bytes: &Vec<u8>)
        ensures
            bytes@ == self@.buffer,
    {
        &self.buffer
    }

    /// The fix-ups that apply to the request.
    pub fn deprecations(&self) -> (found: &Vec<Deprecation>)
        ensures
            views(found@) == self@.deprecations,
    {
        &self.deprecations
    }

    /// Whether a fix-up is pending. If none is, nothing is buffered.
    pub fn pending(&self) -> (b: bool)
        ensures
            b == self@.pending(),
            self@.well_formed(),
    {
        proof {
            use_type_invariant(self);
        }
        !self.deprecations.is_empty()
    }
}

impl ProxyServer {
    /// A proxy in front of the given upstream host.
    pub fn new(upstream_host: String) -> (server: ProxyServer)
        ensures
            server.upstream_host == upstream_host,
    {
        ProxyServer { upstream_host }
    }

    /// The state in which a request starts.
    pub fn new_ctx(&self) -> (ctx: RequestContext)
        ensures
            ctx@ == ContextView::fresh(),
    {
        RequestContext::new()
    }

    /// Inspects the path of an incoming request and notes the fix-ups that
    /// it asks for. The request always goes on to the upstream: the result
    /// says that no response was sent here.
    pub fn request_filter(&self, path: &str, ctx: &mut RequestContext) -> (responded: bool)
        ensures
            !responded,
            final(ctx)@ == old(ctx)@.inspected(path@),
    {
        let mut found = classify(path);
        proof {
            use_type_invariant(&*ctx);
        }
        // The two vectors are taken out, changed and put back together, so
        // that the context is never seen half changed.
        let mut state = RequestContext::new();
        core::mem::swap(ctx, &mut state);
        let RequestContext { buffer, mut deprecations } = state;
        let ghost before = deprecations@;
        deprecations.append(&mut found);
        assert(views(deprecations@) =~= views(before) + classified(path@));
        *ctx = RequestContext { buffer, deprecations };
        false
    }

    /// Names the upstream host in the `Host` field of an outgoing request;
    /// method, URI and version stay as they are. The transport refuses a host
    /// name that holds a control character, and a header that has no room for
    /// another name is refused here; in both cases the header stays as it
    /// was.
    pub fn upstream_request_filter(&self, upstream_request: &mut RequestHeader) -> (r: Result<
        (),
        HeaderRejected,
    >)
        ensures
            r is Ok <==> request_names(*old(upstream_request)) < HEADER_LIMIT
                && is_header_value(encode_utf8(self.upstream_host@)),
            match r {
                Ok(_) => {
                    &&& request_fields(*final(upstream_request)) == forwarded(
                        request_fields(*old(upstream_request)),
                        self.upstream_host@,
                    )
                    &&& request_line(*final(upstream_request)) == request_line(
                        *old(upstream_request),
                    )
                },
                Err(HeaderRejected::Full) => {
                    &&& request_names(*old(upstream_request)) >= HEADER_LIMIT
                    &&& *final(upstream_request) == *old(upstream_request)
                },
                Err(HeaderRejected::Invalid(_)) => {
                    &&& request_names(*old(upstream_request)) < HEADER_LIMIT
                    &&& !is_header_value(encode_utf8(self.upstream_host@))
                    &&& *final(upstream_request) == *old(upstream_request)
                },
            },
    {
        if request_name_count(upstream_request) >= HEADER_LIMIT {
            return Err(HeaderRejected::Full);
        }
        proof {
            reveal_strlit("Host");
        }
        match insert_request_header(upstream_request, "Host", self.upstream_host.as_str()) {
            Ok(_) => Ok(()),
            Err(e) => Err(HeaderRejected::Invalid(e)),
        }
    }

    /// Rewrites the header of an upstream response before it goes to the
    /// client. The proxy's mark is always added; where a fix-up is pending
    /// the declared length gives way to chunked framing. Status, version and
    /// reason stay as they are. A header with no room for the new names is
    /// refused untouched. The transport never refuses the fields written
    /// here.
    pub fn response_filter(
        &self,
        upstream_response: &mut ResponseHeader,
        ctx: &RequestContext,
    ) -> (r: Result<(), HeaderRejected>)
        ensures
            r is Ok <==> response_names(*old(upstream_response)) + names_added(ctx@.pending())
                <= HEADER_LIMIT,
            match r {
                Ok(_) => {
                    &&& response_fields(*final(upstream_response)) == rewritten(
                        response_fields(*old(upstream_response)),
                        ctx@.pending(),
                    )
                    &&& status_line(*final(upstream_response)) == status_line(
                        *old(upstream_response),
                    )
                },
                Err(HeaderRejected::Full) => {
                    &&& response_names(*old(upstream_response)) + names_added(ctx@.pending())
                        > HEADER_LIMIT
                    &&& *final(upstream_response) == *old(upstream_response)
                },
                Err(HeaderRejected::Invalid(_)) => false,
            },
    {
        let pending = ctx.pending();
        let room: usize = if pending {
            HEADER_LIMIT - 2
        } else {
            HEADER_LIMIT - 1
        };
        if response_name_count(upstream_response) > room {
            return Err(HeaderRejected::Full);
        }
        proof {
            reveal_strlit("x-server-source");
            reveal_strlit("https://github.com/thewisenerd/cloudflare_deprecation_reverse_proxy");
            lemma_printable_is_value(
                "https://github.com/thewisenerd/cloudflare_deprecation_reverse_proxy"@,
            );
        }
        match insert_response_header(
            upstream_response,
            "x-server-source",
            "https://github.com/thewisenerd/cloudflare_deprecation_reverse_proxy",
        ) {
            Ok(_) => {},
            Err(e) => {
                return Err(HeaderRejected::Invalid(e));
            },
        }
        if !pending {
            return Ok(());
        }
        // The length of the mutated body is not known yet.
        remove_response_header(upstream_response, "Content-Length");
        proof {
            reveal_strlit("Transfer-Encoding");
            reveal_strlit("chunked");
            lemma_printable_is_value("chunked"@);
        }
        match insert_response_header(upstream_response, "Transfer-Encoding", "chunked") {
            Ok(_) => Ok(()),
            Err(e) => Err(HeaderRejected::Invalid(e)),
        }
    }

    /// Handles one chunk of the response body, or the end of the stream.
    /// With no fix-up pending the chunk is not touched. Otherwise chunks are
    /// held back until the stream ends, and the whole body then goes out at
    /// once: mutated, or as it came where it is malformed. In that last case
    /// the error comes back for the caller to report.
    pub fn response_body_filter(
        &self,
        body: &mut Option<Bytes>,
        end_of_stream: bool,
        ctx: &mut RequestContext,
    ) -> (recovered: Option<MalformedPayload>)
        ensures
            final(ctx)@ == old(ctx)@.after_chunk(chunk_view(*old(body)), end_of_stream),
            chunk_view(*final(body)) == old(ctx)@.emitted(chunk_view(*old(body)), end_of_stream),
            !old(ctx)@.pending() ==> *final(body) == *old(body),
            recovered is Some <==> old(ctx)@.pending() && end_of_stream && mutated(
                old(ctx)@.gathered(chunk_view(*old(body))),
                old(ctx)@.deprecations,
            ) is None,
    {
        if ctx.deprecations.is_empty() {
            return None;
        }
        let ghost before = ctx@;
        let ghost arrived = chunk_view(*body);
        let mut state = RequestContext::new();
        core::mem::swap(ctx, &mut state);
        let RequestContext { mut buffer, deprecations } = state;
        if let Some(chunk) = body {
            buffer.extend_from_slice(Deref::deref(&*chunk));
            chunk.clear();
        }
        assert(buffer@ =~= before.gathered(arrived));
        if !end_of_stream {
            *ctx = RequestContext { buffer, deprecations };
            return None;
        }
        let outcome = mutate(buffer.as_slice(), deprecations.as_slice());
        *ctx = RequestContext { buffer: Vec::new(), deprecations };
        match outcome {
            Ok(patched) => {
                *body = Some(Bytes::from(patched));
                None
            },
            Err(e) => {
                *body = Some(Bytes::from(buffer));
                Some(e)
            },
        }
    }
}

} // verus!
