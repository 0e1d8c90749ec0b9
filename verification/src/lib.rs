//! Core of an ad-serving backend: typed identifiers, entity records with
//! their lifecycle rules, a model of the backing store's operations, the
//! request-translation layer, and the two request handlers.

pub mod db;
pub mod errors;
pub mod server;
pub mod uuid_text;
