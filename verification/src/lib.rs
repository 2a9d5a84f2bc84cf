//! A verified client library for submitting transaction bundles to a
//! block-engine service over JSON-RPC.
//!
//! The heart of the library is the outbound dispatch layer: a pool of
//! client handles bound to distinct local source addresses, together with
//! the selection policy that picks which handle serves each outgoing call
//! (`pool`). Around it stand a plain-value JSON model with a verified
//! serializer (`json`) and the request-building and response-reading rules
//! of the JSON-RPC facade (`rpc`).

pub mod json;
pub mod net;
pub mod pool;
pub mod rpc;
