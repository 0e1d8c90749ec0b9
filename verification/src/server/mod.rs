//! The request-handling layer: translation of inbound request pieces into
//! typed values, and the two handlers.

pub mod extractors;
pub mod handlers;
