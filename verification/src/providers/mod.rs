//! Built-in search providers.
//!
//! Every provider shapes its HTTP requests and turns the decoded replies
//! into a [`SearchResponse`](crate::response::SearchResponse) here; the
//! transport (sending requests, decoding JSON, sleeping between retries)
//! lives with the caller.

pub mod common;
pub mod searxng;
pub mod brave;
pub mod tavily;
pub mod wikipedia;
pub mod duckduckgo;
