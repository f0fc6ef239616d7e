//! An in-memory blog post library: request validation, post construction,
//! an identifier-keyed post store, and the response and error envelopes
//! of the HTTP surface, all with verified contracts.

pub mod config;
pub mod errors;
mod ext;
pub mod handlers;
pub mod post;
pub mod store;
pub mod validate;
