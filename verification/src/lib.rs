//! Resolves the GitHub URL associated with a commit: the pull request that
//! the commit belongs to when the GraphQL API reports one, otherwise the
//! commit itself.
//!
//! The verified core builds the GraphQL request body, parses the variables
//! payload back (the two are proved to round-trip), screens the HTTP status,
//! and derives the final URL from a typed response.

pub mod json;
pub mod request;
pub mod resolve;
pub mod response;
pub mod text;
