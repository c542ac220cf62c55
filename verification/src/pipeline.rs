//! The pipeline as a mathematical model: the state of a request, how each
//! step changes it and what each step lets through, and the laws that hold
//! of every run.

use crate::deprecation::DeprecationView;
use crate::headers::{header_key, Fields};
use crate::json::json_parse;
use crate::mutation::{
    has_records, lemma_body_without_records_is_unchanged, lemma_failure_is_final, mutated,
};
use crate::path::{classified, validated};
use vstd::prelude::*;
use vstd::utf8::encode_utf8;

verus! {

/// A request's state as a mathematical value.
pub struct ContextView {
    /// The response body gathered so far.
    pub buffer: Seq<u8>,
    /// The fix-ups that apply, in the order in which they were found.
    pub deprecations: Seq<DeprecationView>,
}

/// What the HTTP engine reports about a request while it passes through.
pub enum Event {
    /// The request has come in, with this path.
    Request { path: Seq<char> },
    /// A piece of the response body has come in, or the body has ended.
    Body { chunk: Option<Seq<u8>>, end_of_stream: bool },
}

/// The body that is sent for a fully gathered one: what the fix-ups make of
/// it, or the body itself where they fail.
pub open spec fn degraded(body: Seq<u8>, deprecations: Seq<DeprecationView>) -> Seq<u8> {
    match mutated(body, deprecations) {
        Some(patched) => patched,
        None => body,
    }
}

impl ContextView {
    /// The state in which every request starts.
    pub open spec fn fresh() -> ContextView {
        ContextView { buffer: Seq::empty(), deprecations: Seq::empty() }
    }

    /// Whether a fix-up is pending, so that the response has to be buffered.
    pub open spec fn pending(self) -> bool {
        self.deprecations.len() > 0
    }

    /// Nothing is buffered unless a fix-up is pending.
    pub open spec fn well_formed(self) -> bool {
        !self.pending() ==> self.buffer.len() == 0
    }

    /// The state after the request path has been inspected.
    pub open spec fn inspected(self, path: Seq<char>) -> ContextView {
        ContextView { buffer: self.buffer, deprecations: self.deprecations + classified(path) }
    }

    /// The body gathered once a chunk has come in.
    pub open spec fn gathered(self, chunk: Option<Seq<u8>>) -> Seq<u8> {
        match chunk {
            Some(bytes) => self.buffer + bytes,
            None => self.buffer,
        }
    }

    /// The state after a chunk has been handled.
    pub open spec fn after_chunk(self, chunk: Option<Seq<u8>>, end_of_stream: bool) -> ContextView {
        if !self.pending() {
            self
        } else if end_of_stream {
            ContextView { buffer: Seq::empty(), deprecations: self.deprecations }
        } else {
            ContextView { buffer: self.gathered(chunk), deprecations: self.deprecations }
        }
    }

    /// What goes downstream in place of a chunk. With no fix-up pending the
    /// chunk passes. Otherwise nothing is let through before the stream
    /// ends, and then the whole body goes out at once.
    pub open spec fn emitted(self, chunk: Option<Seq<u8>>, end_of_stream: bool) -> Option<Seq<u8>> {
        if !self.pending() {
            chunk
        } else if end_of_stream {
            Some(degraded(self.gathered(chunk), self.deprecations))
        } else {
            match chunk {
                Some(_) => Some(Seq::empty()),
                None => None,
            }
        }
    }

    /// The state after one event.
    pub open spec fn step(self, event: Event) -> ContextView {
        match event {
            Event::Request { path } => self.inspected(path),
            Event::Body { chunk, end_of_stream } => self.after_chunk(chunk, end_of_stream),
        }
    }

    /// The state after a run of events.
    pub open spec fn run(self, events: Seq<Event>) -> ContextView
        decreases events.len(),
    {
        if events.len() == 0 {
            self
        } else {
            self.run(events.drop_last()).step(events.last())
        }
    }
}

/// The fields of an upstream request once its `Host` names the upstream.
pub open spec fn forwarded(fields: Fields, host: Seq<char>) -> Fields {
    fields.insert(header_key("Host"@), seq![encode_utf8(host)])
}

/// The fields of a response with the proxy's mark on it.
pub open spec fn marked(fields: Fields) -> Fields {
    fields.insert(
        header_key("x-server-source"@),
        seq![
            encode_utf8(
                "https://github.com/thewisenerd/cloudflare_deprecation_reverse_proxy"@,
            ),
        ],
    )
}

/// The fields of a response as the client gets them. The proxy's mark is
/// always added. Where the body will be mutated its length is not known
/// beforehand, so the declared length goes and chunked framing takes its
/// place.
pub open spec fn rewritten(fields: Fields, pending: bool) -> Fields {
    if pending {
        marked(fields).remove(header_key("Content-Length"@)).insert(
            header_key("Transfer-Encoding"@),
            seq![encode_utf8("chunked"@)],
        )
    } else {
        marked(fields)
    }
}

/// The number of names that the response rewrite may add.
pub open spec fn names_added(pending: bool) -> nat {
    if pending {
        2
    } else {
        1
    }
}

/// Every state that a request goes through buffers nothing unless a fix-up
/// is pending: the starting state is of this kind, and each event keeps it.
pub proof fn lemma_buffer_needs_a_deprecation(events: Seq<Event>)
    ensures
        ContextView::fresh().run(events).well_formed(),
    decreases events.len(),
{
    if events.len() > 0 {
        lemma_buffer_needs_a_deprecation(events.drop_last());
    }
}

/// A request whose path matches no signature passes through: no fix-up is
/// noted, each chunk of the body goes downstream as it came, nothing is
/// buffered, and the header gains the proxy's mark and nothing else.
pub proof fn lemma_unmatched_path_passes_through(
    path: Seq<char>,
    chunk: Option<Seq<u8>>,
    end_of_stream: bool,
    fields: Fields,
)
    requires
        validated(path) is None,
    ensures
        ({
            let ctx = ContextView::fresh().inspected(path);
            &&& !ctx.pending()
            &&& ctx.emitted(chunk, end_of_stream) == chunk
            &&& ctx.after_chunk(chunk, end_of_stream) == ctx
            &&& ctx.buffer.len() == 0
            &&& rewritten(fields, ctx.pending()) == marked(fields)
        }),
{
}

/// A body that is not JSON goes out as it came: once the stream has ended,
/// what is sent is exactly what was gathered.
pub proof fn lemma_malformed_body_goes_out_unchanged(ctx: ContextView, chunk: Option<Seq<u8>>)
    requires
        ctx.pending(),
        json_parse(ctx.gathered(chunk)) is None,
    ensures
        ctx.emitted(chunk, true) == Some(ctx.gathered(chunk)),
{
    let body = ctx.gathered(chunk);
    let first = ctx.deprecations.take(1);
    assert(mutated(body, first.drop_last()) == Some(body));
    lemma_failure_is_final(body, ctx.deprecations, 1);
}

/// A body that is JSON but lists no records goes out as it came, byte for
/// byte, once the stream has ended.
pub proof fn lemma_body_without_records_goes_out_unchanged(
    ctx: ContextView,
    chunk: Option<Seq<u8>>,
)
    requires
        ctx.pending(),
        json_parse(ctx.gathered(chunk)) matches Some(doc) && !has_records(doc),
    ensures
        ctx.emitted(chunk, true) == Some(ctx.gathered(chunk)),
{
    lemma_body_without_records_is_unchanged(ctx.gathered(chunk), ctx.deprecations);
}

/// The events of one request among the events of all requests in flight,
/// in the order in which they came.
pub open spec fn own_events(events: Seq<(nat, Event)>, request: nat) -> Seq<Event>
    decreases events.len(),
{
    if events.len() == 0 {
        Seq::empty()
    } else {
        let before = own_events(events.drop_last(), request);
        if events.last().0 == request {
            before.push(events.last().1)
        } else {
            before
        }
    }
}

/// The states of all requests in flight after their events have come in, in
/// any interleaving: each event changes the state of its own request.
pub open spec fn serve(events: Seq<(nat, Event)>) -> Map<nat, ContextView>
    decreases events.len(),
{
    if events.len() == 0 {
        Map::total(|request: nat| ContextView::fresh())
    } else {
        let before = serve(events.drop_last());
        let (request, event) = events.last();
        before.insert(request, before[request].step(event))
    }
}

/// Requests do not mix: however the events of several requests interleave,
/// each request ends in the state that it would reach if it were served
/// alone. The fix-ups and the buffer of one never reach another.
pub proof fn lemma_requests_do_not_mix(events: Seq<(nat, Event)>, request: nat)
    ensures
        serve(events).contains_key(request),
        serve(events)[request] == ContextView::fresh().run(own_events(events, request)),
    decreases events.len(),
{
    if events.len() > 0 {
        lemma_requests_do_not_mix(events.drop_last(), request);
        if events.last().0 == request {
            let own = own_events(events, request);
            assert(own.drop_last() =~= own_events(events.drop_last(), request));
        }
    }
}

/// The names under which the fields that the proxy writes or removes are
/// kept.
pub proof fn lemma_field_names()
    ensures
        header_key("Host"@) == "host"@,
        header_key("Content-Length"@) == "content-length"@,
        header_key("Transfer-Encoding"@) == "transfer-encoding"@,
        header_key("x-server-source"@) == "x-server-source"@,
{
    reveal_strlit("Host");
    reveal_strlit("host");
    reveal_strlit("Content-Length");
    reveal_strlit("content-length");
    reveal_strlit("Transfer-Encoding");
    reveal_strlit("transfer-encoding");
    reveal_strlit("x-server-source");
}

/// With a fix-up pending the client never sees a declared length and always
/// sees chunked framing, beside the proxy's mark; every other field is as the
/// upstream sent it.
pub proof fn lemma_mutation_reframes(fields: Fields)
    ensures
        !rewritten(fields, true).contains_key(header_key("Content-Length"@)),
        rewritten(fields, true).contains_key(header_key("Transfer-Encoding"@)),
        rewritten(fields, true)[header_key("Transfer-Encoding"@)] == seq![
            encode_utf8("chunked"@),
        ],
        rewritten(fields, true).contains_key(header_key("x-server-source"@)),
        rewritten(fields, true)[header_key("x-server-source"@)] == marked(fields)[header_key(
            "x-server-source"@,
        )],
        forall|name: Seq<char>|
            name != header_key("Content-Length"@) && name != header_key("Transfer-Encoding"@)
                && name != header_key("x-server-source"@) ==> {
                &&& rewritten(fields, true).contains_key(name) == fields.contains_key(name)
                &&& rewritten(fields, true)[name] == fields[name]
            },
{
    reveal_strlit("Content-Length");
    reveal_strlit("Transfer-Encoding");
    reveal_strlit("x-server-source");
    assert(header_key("Transfer-Encoding"@).len() == 17);
    assert(header_key("x-server-source"@).len() == 15);
}

/// With no fix-up pending the header is as the upstream sent it, but for the
/// proxy's mark.
pub proof fn lemma_without_mutation_only_the_mark_is_added(fields: Fields)
    ensures
        rewritten(fields, false).contains_key(header_key("x-server-source"@)),
        rewritten(fields, false)[header_key("x-server-source"@)] == seq![
            encode_utf8(
                "https://github.com/thewisenerd/cloudflare_deprecation_reverse_proxy"@,
            ),
        ],
        forall|name: Seq<char>|
            name != header_key("x-server-source"@) ==> {
                &&& rewritten(fields, false).contains_key(name) == fields.contains_key(name)
                &&& rewritten(fields, false)[name] == fields[name]
            },
{
}

} // verus!
