//! Construction of the GraphQL request: the fixed query text, the variables
//! payload as a JSON object, and the request body that carries both. The
//! variables payload can also be parsed back; parsing is proved to undo
//! serialization exactly.

use vstd::prelude::*;
use vstd::string::*;
use crate::json::{
    append_escaped, escape_string, lemma_strip_prefix, lemma_unescape_escape, match_prefix,
    scan_string, strip_prefix, unescape_prefix,
};
use crate::text::{chars_to_string, str_to_chars};

verus! {

/// The variables of the GraphQL query: repository owner, repository name and
/// commit hash, serialized in this order.
pub struct QueryVariables {
    pub owner: String,
    pub name: String,
    pub commit: String,
}

/// The opening of the variables object, up to the first character of the
/// owner value.
pub open spec fn vars_owner_prefix() -> Seq<char> {
    "{\"owner\":\""@
}

/// The text between the owner value's closing quote and the name value.
pub open spec fn vars_name_infix() -> Seq<char> {
    ",\"name\":\""@
}

/// The text between the name value's closing quote and the commit value.
pub open spec fn vars_commit_infix() -> Seq<char> {
    ",\"commit\":\""@
}

/// The closing brace of a serialized object.
pub open spec fn object_suffix() -> Seq<char> {
    "}"@
}

/// A double quote.
pub open spec fn quote() -> Seq<char> {
    seq!['"']
}

/// The serialized variables payload:
/// `{"owner":"...","name":"...","commit":"..."}` with each value escaped.
pub open spec fn variables_json_spec(owner: Seq<char>, name: Seq<char>, commit: Seq<char>) -> Seq<
    char,
> {
    vars_owner_prefix() + escape_string(owner) + quote() + vars_name_infix() + escape_string(name)
        + quote() + vars_commit_infix() + escape_string(commit) + quote() + object_suffix()
}

/// Serializes the variables payload.
pub fn variables_json(v: &QueryVariables) -> (r: String)
    ensures
        r@ == variables_json_spec(v.owner@, v.name@, v.commit@),
{
    let mut r = String::new();
    r.append("{\"owner\":\"");
    append_escaped(&mut r, v.owner.as_str());
    r.append("\"");
    r.append(",\"name\":\"");
    append_escaped(&mut r, v.name.as_str());
    r.append("\"");
    r.append(",\"commit\":\"");
    append_escaped(&mut r, v.commit.as_str());
    r.append("\"");
    r.append("}");
    proof {
        reveal_strlit("\"");
        assert("\""@ =~= quote());
        assert(r@ =~= variables_json_spec(v.owner@, v.name@, v.commit@));
    }
    r
}

/// The fixed GraphQL query: for the repository named by the variables, the
/// commit that `$commit` names, and the last associated pull request's number.
pub open spec fn query_text_spec() -> Seq<char> {
    "\n        query($owner: String!, $name: String!, $commit: String!) {\n            repository(owner: $owner, name: $name) {\n                name\n                owner {\n                    login\n                }\n                object(expression: $commit) {\n                    ... on Commit {\n                        commitUrl\n                        associatedPullRequests(last: 1) {\n                            nodes {\n                                number\n                            }\n                        }\n                    }\n                }\n            }\n        }\n    "@
}

/// The fixed GraphQL query text.
pub fn query_text() -> (r: &'static str)
    ensures
        r@ == query_text_spec(),
{
    "\n        query($owner: String!, $name: String!, $commit: String!) {\n            repository(owner: $owner, name: $name) {\n                name\n                owner {\n                    login\n                }\n                object(expression: $commit) {\n                    ... on Commit {\n                        commitUrl\n                        associatedPullRequests(last: 1) {\n                            nodes {\n                                number\n                            }\n                        }\n                    }\n                }\n            }\n        }\n    "
}

/// The opening of the request body, up to the first character of the query.
pub open spec fn body_query_prefix() -> Seq<char> {
    "{\"query\":\""@
}

/// The text between the query's closing quote and the variables value.
pub open spec fn body_variables_infix() -> Seq<char> {
    ",\"variables\":\""@
}

/// The request body sent to the endpoint: a JSON object with the query text
/// under `"query"` and the serialized variables payload, itself a JSON string
/// value, under `"variables"`.
pub open spec fn request_body_spec(owner: Seq<char>, name: Seq<char>, commit: Seq<char>) -> Seq<
    char,
> {
    body_query_prefix() + escape_string(query_text_spec()) + quote() + body_variables_infix()
        + escape_string(variables_json_spec(owner, name, commit)) + quote() + object_suffix()
}

/// Builds the request body for the given variables.
pub fn request_body(v: &QueryVariables) -> (r: String)
    ensures
        r@ == request_body_spec(v.owner@, v.name@, v.commit@),
{
    let vars = variables_json(v);
    let mut r = String::new();
    r.append("{\"query\":\"");
    append_escaped(&mut r, query_text());
    r.append("\"");
    r.append(",\"variables\":\"");
    append_escaped(&mut r, vars.as_str());
    r.append("\"");
    r.append("}");
    proof {
        reveal_strlit("\"");
        assert("\""@ =~= quote());
        assert(r@ =~= request_body_spec(v.owner@, v.name@, v.commit@));
    }
    r
}

/// The fixed endpoint that the request body is sent to.
pub fn graphql_endpoint() -> (r: &'static str)
    ensures
        r@ == "https://api.github.com/graphql"@,
{
    "https://api.github.com/graphql"
}

/// The client identifier sent with each request.
pub fn user_agent() -> (r: &'static str)
    ensures
        r@ == "request"@,
{
    "request"
}

/// The result of parsing a variables payload: the owner, name and commit
/// values, in that order.
pub open spec fn parse_variables_spec(s: Seq<char>) -> Option<(Seq<char>, Seq<char>, Seq<char>)> {
    match strip_prefix(s, vars_owner_prefix()) {
        None => None,
        Some(s1) => match unescape_prefix(s1) {
            None => None,
            Some((owner, i1)) => {
                let s2 = s1.skip(i1);
                match strip_prefix(s2, vars_name_infix()) {
                    None => None,
                    Some(s3) => match unescape_prefix(s3) {
                        None => None,
                        Some((name, i2)) => {
                            let s4 = s3.skip(i2);
                            match strip_prefix(s4, vars_commit_infix()) {
                                None => None,
                                Some(s5) => match unescape_prefix(s5) {
                                    None => None,
                                    Some((commit, i3)) => if s5.skip(i3) == object_suffix() {
                                        Some((owner, name, commit))
                                    } else {
                                        None
                                    },
                                },
                            }
                        },
                    },
                }
            },
        },
    }
}

/// Parses a variables payload back into its owner, name and commit values.
pub fn parse_variables(s: &str) -> (r: Option<QueryVariables>)
    ensures
        match r {
            Some(v) => parse_variables_spec(s@) == Some((v.owner@, v.name@, v.commit@)),
            None => parse_variables_spec(s@) is None,
        },
{
    let cs = str_to_chars(s);
    proof {
        assert(cs@.skip(0) =~= s@);
    }
    let i1 = match match_prefix(&cs, 0, "{\"owner\":\"") {
        None => { return None; },
        Some(j) => j,
    };
    let (owner, i2) = match scan_string(&cs, i1) {
        None => { return None; },
        Some(p) => p,
    };
    proof {
        let s1 = strip_prefix(s@, vars_owner_prefix()).unwrap();
        let rel = unescape_prefix(s1).unwrap();
        assert(s1.skip(rel.1) =~= cs@.skip(i2 as int));
    }
    let i3 = match match_prefix(&cs, i2, ",\"name\":\"") {
        None => { return None; },
        Some(j) => j,
    };
    let (name, i4) = match scan_string(&cs, i3) {
        None => { return None; },
        Some(p) => p,
    };
    proof {
        let s1 = strip_prefix(s@, vars_owner_prefix()).unwrap();
        let s2 = s1.skip(unescape_prefix(s1).unwrap().1);
        let s3 = strip_prefix(s2, vars_name_infix()).unwrap();
        let rel = unescape_prefix(s3).unwrap();
        assert(s3.skip(rel.1) =~= cs@.skip(i4 as int));
    }
    let i5 = match match_prefix(&cs, i4, ",\"commit\":\"") {
        None => { return None; },
        Some(j) => j,
    };
    let (commit, i6) = match scan_string(&cs, i5) {
        None => { return None; },
        Some(p) => p,
    };
    proof {
        let s1 = strip_prefix(s@, vars_owner_prefix()).unwrap();
        let s2 = s1.skip(unescape_prefix(s1).unwrap().1);
        let s3 = strip_prefix(s2, vars_name_infix()).unwrap();
        let s4 = s3.skip(unescape_prefix(s3).unwrap().1);
        let s5 = strip_prefix(s4, vars_commit_infix()).unwrap();
        let rel = unescape_prefix(s5).unwrap();
        assert(s5.skip(rel.1) =~= cs@.skip(i6 as int));
    }
    if i6 == cs.len() - 1 && cs[i6] == '}' {
        proof {
            reveal_strlit("}");
            assert(cs@.skip(i6 as int) =~= object_suffix());
        }
        Some(
            QueryVariables {
                owner: chars_to_string(&owner),
                name: chars_to_string(&name),
                commit: chars_to_string(&commit),
            },
        )
    } else {
        proof {
            reveal_strlit("}");
            let tail = cs@.skip(i6 as int);
            assert(object_suffix().len() == 1);
            assert(object_suffix()[0] == '}');
            if i6 == cs.len() - 1 {
                assert(tail[0] == cs@[i6 as int]);
                assert(cs@[i6 as int] != '}');
                assert(tail != object_suffix());
            } else {
                assert(tail.len() != 1);
                assert(tail != object_suffix());
            }
        }
        None
    }
}

/// Serializing the variables payload and parsing it back yields the original
/// owner, name and commit values, whatever characters they hold.
#[verifier::rlimit(100)]
pub proof fn lemma_variables_round_trip(owner: Seq<char>, name: Seq<char>, commit: Seq<char>)
    ensures
        parse_variables_spec(variables_json_spec(owner, name, commit)) == Some(
            (owner, name, commit),
        ),
{
    let s = variables_json_spec(owner, name, commit);
    let rest1 = escape_string(owner) + quote() + vars_name_infix() + escape_string(name) + quote()
        + vars_commit_infix() + escape_string(commit) + quote() + object_suffix();
    assert(s =~= vars_owner_prefix() + rest1);
    lemma_strip_prefix(vars_owner_prefix(), rest1);

    let rest2 = vars_name_infix() + escape_string(name) + quote() + vars_commit_infix()
        + escape_string(commit) + quote() + object_suffix();
    assert(rest1 =~= escape_string(owner) + seq!['"'] + rest2);
    lemma_unescape_escape(owner, rest2);
    assert(rest1.skip(escape_string(owner).len() as int + 1) =~= rest2);

    let rest3 = escape_string(name) + quote() + vars_commit_infix() + escape_string(commit)
        + quote() + object_suffix();
    assert(rest2 =~= vars_name_infix() + rest3);
    lemma_strip_prefix(vars_name_infix(), rest3);

    let rest4 = vars_commit_infix() + escape_string(commit) + quote() + object_suffix();
    assert(rest3 =~= escape_string(name) + seq!['"'] + rest4);
    lemma_unescape_escape(name, rest4);
    assert(rest3.skip(escape_string(name).len() as int + 1) =~= rest4);

    let rest5 = escape_string(commit) + quote() + object_suffix();
    assert(rest4 =~= vars_commit_infix() + rest5);
    lemma_strip_prefix(vars_commit_infix(), rest5);

    assert(rest5 =~= escape_string(commit) + seq!['"'] + object_suffix());
    lemma_unescape_escape(commit, object_suffix());
    assert(rest5.skip(escape_string(commit).len() as int + 1) =~= object_suffix());
}

} // verus!
