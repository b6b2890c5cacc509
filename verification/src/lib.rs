//! A typed client library for a web search API.
//!
//! The library builds the query string for a search request from a set of
//! optional parameters, parses the JSON response body into a typed result
//! model covering the different result categories, and classifies the
//! errors a caller can see.  The network round trip itself is left to the
//! program that embeds the library.

pub mod errors;
pub mod json;
pub mod numbers;
pub mod query_builders;
pub mod query_params;
pub mod response;

pub use errors::BraveClientError;
pub use query_builders::web_search_query_builder;
pub use query_params::{WebSearchQueryParams, WebSearchQueryParamsBuilder};
pub use response::{WebSearchApiResponse, parse_response};
