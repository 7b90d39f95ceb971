use pr_url_resolver::resolve::{check_status, commit_url, fetch_github_url, pull_request_url};
use pr_url_resolver::response::{
    CommitObject, Owner, PullRequestNode, PullRequests, QueryResponse, Repository, ResponseData,
};

fn response(owner: &str, name: &str, object: Option<CommitObject>) -> QueryResponse {
    QueryResponse {
        data: ResponseData {
            repository: Repository {
                name: name.to_string(),
                owner: Owner { login: owner.to_string() },
                object,
            },
        },
    }
}

fn nodes(numbers: &[i64]) -> PullRequests {
    PullRequests { nodes: numbers.iter().map(|n| PullRequestNode { number: *n }).collect() }
}

#[test]
fn pull_url_from_first_node() {
    let resp = response("o", "r", Some(CommitObject { associated_pull_requests: Some(nodes(&[42])) }));
    let url = fetch_github_url(resp, "abcd123".to_string());
    assert_eq!(url, Some("https://github.com/o/r/pull/42".to_string()));
}

#[test]
fn commit_url_when_pull_requests_absent() {
    let resp = response("o", "r", Some(CommitObject { associated_pull_requests: None }));
    let url = fetch_github_url(resp, "abcd123".to_string());
    assert_eq!(url, Some("https://github.com/o/r/commit/abcd123".to_string()));
}

#[test]
fn commit_url_when_nodes_empty() {
    let resp = response("o", "r", Some(CommitObject { associated_pull_requests: Some(nodes(&[])) }));
    let url = fetch_github_url(resp, "abcd123".to_string());
    assert_eq!(url, Some("https://github.com/o/r/commit/abcd123".to_string()));
}

#[test]
fn no_url_when_object_absent() {
    let resp = response("o", "r", None);
    let url = fetch_github_url(resp, "abcd123".to_string());
    assert_eq!(url, None);
}

#[test]
fn first_of_two_nodes_wins() {
    let resp = response("o", "r", Some(CommitObject { associated_pull_requests: Some(nodes(&[7, 9])) }));
    let url = fetch_github_url(resp, "abcd123".to_string());
    assert_eq!(url, Some("https://github.com/o/r/pull/7".to_string()));
}

#[test]
fn repository_fields_name_the_url() {
    let resp = response(
        "rust-lang",
        "rust",
        Some(CommitObject { associated_pull_requests: Some(nodes(&[120000])) }),
    );
    let url = fetch_github_url(resp, "deadbeef".to_string());
    assert_eq!(url, Some("https://github.com/rust-lang/rust/pull/120000".to_string()));
}

#[test]
fn error_statuses_are_rejected() {
    assert_eq!(check_status(400), Err(400));
    assert_eq!(check_status(404), Err(404));
    assert_eq!(check_status(500), Err(500));
    assert_eq!(check_status(599), Err(599));
}

#[test]
fn success_statuses_pass() {
    assert_eq!(check_status(200), Ok(()));
    assert_eq!(check_status(301), Ok(()));
    assert_eq!(check_status(399), Ok(()));
    assert_eq!(check_status(600), Ok(()));
}

#[test]
fn pull_url_zero_and_extremes() {
    assert_eq!(pull_request_url("o", "r", 0), "https://github.com/o/r/pull/0");
    assert_eq!(
        pull_request_url("o", "r", i64::MAX),
        "https://github.com/o/r/pull/9223372036854775807"
    );
    assert_eq!(
        pull_request_url("o", "r", i64::MIN),
        "https://github.com/o/r/pull/-9223372036854775808"
    );
}

#[test]
fn commit_url_direct() {
    assert_eq!(
        commit_url("octo", "repo", "0123abc"),
        "https://github.com/octo/repo/commit/0123abc"
    );
}
