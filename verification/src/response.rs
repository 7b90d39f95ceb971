//! The typed shape of the GraphQL response. Everything below the commit
//! `object` is optional: the commit may not exist, the pull-request structure
//! may be absent, and the node list may be empty.

use vstd::prelude::*;

verus! {

/// One pull request associated with the commit.
pub struct PullRequestNode {
    pub number: i64,
}

/// The pull requests associated with the commit.
pub struct PullRequests {
    pub nodes: Vec<PullRequestNode>,
}

/// The commit object, when the commit exists in the repository.
pub struct CommitObject {
    pub associated_pull_requests: Option<PullRequests>,
}

/// The repository owner.
pub struct Owner {
    pub login: String,
}

/// The repository, as the query returns it.
pub struct Repository {
    pub name: String,
    pub owner: Owner,
    pub object: Option<CommitObject>,
}

/// The `data` field of the response.
pub struct ResponseData {
    pub repository: Repository,
}

/// A complete response to the query.
pub struct QueryResponse {
    pub data: ResponseData,
}

} // verus!
