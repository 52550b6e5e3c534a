//! Provider-agnostic web search: query model, response model, error
//! taxonomy, retry policy and the request/response logic of every
//! supported search provider.

pub mod text;
pub mod cli;
pub mod client;
pub mod encoding;
pub mod http;
pub mod error;
pub mod providers;
pub mod query;
pub mod response;
pub mod retry;
pub mod secret;
pub mod time;
pub mod urls;
