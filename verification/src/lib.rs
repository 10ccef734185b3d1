//! Service-account access to an analytical data warehouse from an edge
//! function: token acquisition with an advisory cache, query-job framing,
//! date-range filters and typed decoding of tabular responses.

pub mod decimal;
pub mod json;
pub mod table;
pub mod response;
pub mod filter;
pub mod auth;
pub mod query;
pub mod statement;
