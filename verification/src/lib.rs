//! A minimal HTTP/1.x protocol core: typed requests and responses, a strict
//! request-line parser, a response builder with wire-format serialization,
//! and an exact-match route table with a single fallback responder.

pub mod decimal;
pub mod protocol;
pub mod request;
pub mod response;
pub mod router;
