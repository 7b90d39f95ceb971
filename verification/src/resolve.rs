//! Derivation of the final URL from a response: the first associated pull
//! request when there is one, the commit itself when there is none, and no
//! URL at all when the commit object is absent. Also the test on the HTTP
//! status that decides whether a response body is looked at in the first
//! place.

use vstd::prelude::*;
use vstd::string::*;
use crate::response::QueryResponse;
use crate::text::{append_dec_i64, dec_int};

verus! {

/// The common prefix of every derived URL.
pub open spec fn url_base() -> Seq<char> {
    "https://github.com/"@
}

/// The separator between the owner and the repository name.
pub open spec fn url_slash() -> Seq<char> {
    "/"@
}

/// The path segment that precedes a pull request number.
pub open spec fn url_pull_segment() -> Seq<char> {
    "/pull/"@
}

/// The path segment that precedes a commit hash.
pub open spec fn url_commit_segment() -> Seq<char> {
    "/commit/"@
}

/// The URL of pull request `number` of the repository `owner/name`.
pub open spec fn pull_url_spec(owner: Seq<char>, name: Seq<char>, number: int) -> Seq<char> {
    url_base() + owner + url_slash() + name + url_pull_segment() + dec_int(number)
}

/// The URL of commit `commit` of the repository `owner/name`.
pub open spec fn commit_url_spec(owner: Seq<char>, name: Seq<char>, commit: Seq<char>) -> Seq<
    char,
> {
    url_base() + owner + url_slash() + name + url_commit_segment() + commit
}

/// The URL that a response resolves to, if any: the first associated pull
/// request's URL when at least one node is present, the commit's URL when the
/// commit object exists but carries no pull request, and nothing when the
/// commit object is absent.
pub open spec fn resolved_url_spec(r: QueryResponse, commit: Seq<char>) -> Option<Seq<char>> {
    let repo = r.data.repository;
    match repo.object {
        None => None,
        Some(obj) => match obj.associated_pull_requests {
            Some(prs) => if prs.nodes@.len() > 0 {
                Some(pull_url_spec(repo.owner.login@, repo.name@, prs.nodes@[0].number as int))
            } else {
                Some(commit_url_spec(repo.owner.login@, repo.name@, commit))
            },
            None => Some(commit_url_spec(repo.owner.login@, repo.name@, commit)),
        },
    }
}

/// Builds the URL of pull request `number` of the repository `owner/name`.
pub fn pull_request_url(owner: &str, name: &str, number: i64) -> (r: String)
    ensures
        r@ == pull_url_spec(owner@, name@, number as int),
{
    let mut r = String::new();
    r.append("https://github.com/");
    r.append(owner);
    r.append("/");
    r.append(name);
    r.append("/pull/");
    append_dec_i64(&mut r, number);
    proof {
        assert(r@ =~= pull_url_spec(owner@, name@, number as int));
    }
    r
}

/// Builds the URL of commit `commit` of the repository `owner/name`.
pub fn commit_url(owner: &str, name: &str, commit: &str) -> (r: String)
    ensures
        r@ == commit_url_spec(owner@, name@, commit@),
{
    let mut r = String::new();
    r.append("https://github.com/");
    r.append(owner);
    r.append("/");
    r.append(name);
    r.append("/commit/");
    r.append(commit);
    proof {
        assert(r@ =~= commit_url_spec(owner@, name@, commit@));
    }
    r
}

/// Resolves a response to its URL, exactly as `resolved_url_spec` describes:
/// `None` is returned precisely when the commit object is absent.
pub fn fetch_github_url(json_response: QueryResponse, commit: String) -> (r: Option<String>)
    ensures
        match r {
            Some(url) => resolved_url_spec(json_response, commit@) == Some(url@),
            None => resolved_url_spec(json_response, commit@) is None,
        },
{
    let repo = json_response.data.repository;
    match repo.object {
        None => None,
        Some(obj) => match obj.associated_pull_requests {
            Some(prs) => {
                if prs.nodes.len() > 0 {
                    Some(
                        pull_request_url(
                            repo.owner.login.as_str(),
                            repo.name.as_str(),
                            prs.nodes[0].number,
                        ),
                    )
                } else {
                    Some(commit_url(repo.owner.login.as_str(), repo.name.as_str(), commit.as_str()))
                }
            },
            None => Some(
                commit_url(repo.owner.login.as_str(), repo.name.as_str(), commit.as_str()),
            ),
        },
    }
}

/// A response whose commit object is absent resolves to no URL at all.
pub proof fn lemma_absent_object_yields_no_url(r: QueryResponse, commit: Seq<char>)
    requires
        r.data.repository.object is None,
    ensures
        resolved_url_spec(r, commit) is None,
{
}

/// A response whose commit object is present but carries no pull request
/// node, whether the pull-request structure is absent or its node list is
/// empty, resolves to the commit's own URL.
pub proof fn lemma_no_node_yields_commit_url(r: QueryResponse, commit: Seq<char>)
    requires
        r.data.repository.object is Some,
        match r.data.repository.object->0.associated_pull_requests {
            Some(prs) => prs.nodes@.len() == 0,
            None => true,
        },
    ensures
        resolved_url_spec(r, commit) == Some(
            commit_url_spec(r.data.repository.owner.login@, r.data.repository.name@, commit),
        ),
{
}

/// With at least one associated pull request node, the resolved URL is the
/// first node's pull request URL: nodes after the first play no part.
pub proof fn lemma_first_node_decides(r: QueryResponse, commit: Seq<char>)
    requires
        r.data.repository.object is Some,
        r.data.repository.object->0.associated_pull_requests is Some,
        r.data.repository.object->0.associated_pull_requests->0.nodes@.len() > 0,
    ensures
        resolved_url_spec(r, commit) == Some(
            pull_url_spec(
                r.data.repository.owner.login@,
                r.data.repository.name@,
                r.data.repository.object->0.associated_pull_requests->0.nodes@[0].number as int,
            ),
        ),
{
}

/// True exactly when an HTTP status code is a client or server error: the
/// statuses on which resolution must stop before the body is parsed.
pub open spec fn is_error_status(status: u16) -> bool {
    400 <= status < 600
}

/// Screens a response by its HTTP status: `Ok` exactly on a non-error
/// status, and the offending status itself otherwise. Only on `Ok` may the
/// body be parsed and resolved.
pub fn check_status(status: u16) -> (r: Result<(), u16>)
    ensures
        r is Ok <==> !is_error_status(status),
        r is Err ==> r->Err_0 == status,
{
    if 400 <= status && status < 600 {
        Err(status)
    } else {
        Ok(())
    }
}

} // verus!
