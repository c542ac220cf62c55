//! A reverse proxy's request and response pipeline: it tells which requests an
//! upstream API change affects, rewrites the framing headers of their
//! responses, buffers the response body and restores the fields that the
//! upstream dropped.
//!
//! The modules `chunk`, `headers` and `json` state what the crates `bytes`,
//! `pingora_http` and `serde_json` do, and `path` states what `String::push`
//! does; everything else is proved against those statements.

pub mod chunk;
pub mod deprecation;
pub mod headers;
pub mod json;
pub mod mutation;
pub mod path;
pub mod pipeline;
pub mod proxy;

pub use deprecation::{Deprecation, Deprecation20241130};
pub use mutation::MalformedPayload;
pub use proxy::{HeaderRejected, ProxyServer, RequestContext, PROXY_HOST};
