use pr_url_resolver::request::{
    graphql_endpoint, parse_variables, query_text, request_body, user_agent, variables_json,
    QueryVariables,
};

fn variables(owner: &str, name: &str, commit: &str) -> QueryVariables {
    QueryVariables {
        owner: owner.to_string(),
        name: name.to_string(),
        commit: commit.to_string(),
    }
}

fn escape(s: &str) -> String {
    s.replace('\\', "\\\\")
        .replace('"', "\\\"")
        .replace('\n', "\\n")
        .replace('\r', "\\r")
        .replace('\t', "\\t")
}

#[test]
fn variables_payload_simple() {
    let v = variables("o", "n", "c");
    assert_eq!(variables_json(&v), "{\"owner\":\"o\",\"name\":\"n\",\"commit\":\"c\"}");
}

#[test]
fn variables_payload_escapes() {
    let v = variables("a\"b", "c\\d", "e\nf\tg");
    assert_eq!(
        variables_json(&v),
        "{\"owner\":\"a\\\"b\",\"name\":\"c\\\\d\",\"commit\":\"e\\nf\\tg\"}"
    );
}

#[test]
fn round_trip_simple() {
    let v = variables("octocat", "hello-world", "7fd1a60b01f91b314f59955a4e4d4e80d8edf11d");
    let parsed = parse_variables(&variables_json(&v)).expect("payload parses back");
    assert_eq!(parsed.owner, v.owner);
    assert_eq!(parsed.name, v.name);
    assert_eq!(parsed.commit, v.commit);
}

#[test]
fn round_trip_special_characters() {
    let v = variables("a\"b\\c", "line\nbreak\ttab\rret", "日本語と\"引用\"");
    let parsed = parse_variables(&variables_json(&v)).expect("payload parses back");
    assert_eq!(parsed.owner, v.owner);
    assert_eq!(parsed.name, v.name);
    assert_eq!(parsed.commit, v.commit);
}

#[test]
fn round_trip_empty_values() {
    let v = variables("", "", "");
    assert_eq!(variables_json(&v), "{\"owner\":\"\",\"name\":\"\",\"commit\":\"\"}");
    let parsed = parse_variables(&variables_json(&v)).expect("payload parses back");
    assert_eq!(parsed.owner, "");
    assert_eq!(parsed.name, "");
    assert_eq!(parsed.commit, "");
}

#[test]
fn parse_accepts_handwritten_payload() {
    let parsed = parse_variables("{\"owner\":\"a\",\"name\":\"b\",\"commit\":\"c\"}")
        .expect("well-formed payload parses");
    assert_eq!(parsed.owner, "a");
    assert_eq!(parsed.name, "b");
    assert_eq!(parsed.commit, "c");
}

#[test]
fn parse_rejects_malformed_payloads() {
    assert!(parse_variables("").is_none());
    assert!(parse_variables("{}").is_none());
    assert!(parse_variables("{\"owner\":\"a\"}").is_none());
    assert!(parse_variables("{\"owner\":\"a\",\"name\":\"b\",\"commit\":\"c\"").is_none());
    assert!(parse_variables("{\"owner\":\"a\",\"name\":\"b\",\"commit\":\"c\"}x").is_none());
    assert!(parse_variables("{\"owner\":\"a\\x\",\"name\":\"b\",\"commit\":\"c\"}").is_none());
    assert!(parse_variables("[\"owner\",\"name\",\"commit\"]").is_none());
}

#[test]
fn request_body_carries_query_and_variables() {
    let v = variables("o", "n", "c");
    let expected = format!(
        "{{\"query\":\"{}\",\"variables\":\"{}\"}}",
        escape(query_text()),
        escape(&variables_json(&v))
    );
    assert_eq!(request_body(&v), expected);
}

#[test]
fn query_asks_for_the_last_pull_request() {
    let q = query_text();
    assert!(q.contains("associatedPullRequests(last: 1)"));
    assert!(q.contains("object(expression: $commit)"));
    assert!(q.contains("repository(owner: $owner, name: $name)"));
}

#[test]
fn fixed_endpoint_and_client_identifier() {
    assert_eq!(graphql_endpoint(), "https://api.github.com/graphql");
    assert_eq!(user_agent(), "request");
}
