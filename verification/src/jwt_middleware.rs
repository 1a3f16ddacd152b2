//! Finding the bearer token of a request.
use crate::text::{
    before_first, before_first_chars, chars_of, has_prefix, lemma_before_first_len, skip_chars,
    starts_with, str_eq, string_from_chars,
};
use vstd::prelude::*;

verus! {

/// What a token says of its holder: the user's identifier (a UUID in text),
/// name and role, and when it expires (seconds since the Unix epoch).
#[derive(Debug, Clone)]
pub struct Claims {
    pub sub: String,
    pub username: String,
    pub role: String,
    pub exp: u64,
}

/// The user a request was authenticated as.
#[derive(Debug, Clone)]
pub struct AuthenticatedUser {
    pub user_id: String,
}

/// The token of an `Authorization` header: what follows `Bearer `.
pub open spec fn bearer_of(header: Seq<char>) -> Option<Seq<char>> {
    if has_prefix(header, "Bearer "@) {
        Some(header.skip(7))
    } else {
        None
    }
}

/// The token of an `Authorization` header value, if it holds one.
pub fn bearer_token(header: &str) -> (r: Option<String>)
    ensures
        match r {
            Some(t) => bearer_of(header@) == Some(t@),
            None => bearer_of(header@) is None,
        },
{
    proof {
        reveal_strlit("Bearer ");
    }
    if starts_with(header, "Bearer ") {
        let cs = chars_of(header);
        let rest = skip_chars(&cs, 7);
        Some(string_from_chars(&rest))
    } else {
        None
    }
}

/// The token of one query parameter: its value when its name is `token`
/// (the text between the first and the second `=`).
pub open spec fn param_token(p: Seq<char>) -> Option<Seq<char>> {
    let key = before_first(p, '=');
    if key == "token"@ && key.len() < p.len() {
        Some(before_first(p.skip(key.len() + 1int), '='))
    } else {
        None
    }
}

/// The token of a query string: that of the first `&`-separated parameter
/// that has one.
pub open spec fn query_token(q: Seq<char>) -> Option<Seq<char>>
    decreases q.len(),
{
    let p = before_first(q, '&');
    if param_token(p) is Some {
        param_token(p)
    } else if p.len() < q.len() {
        query_token(q.skip(p.len() + 1int))
    } else {
        None
    }
}

fn param_token_chars(p: &Vec<char>) -> (r: Option<String>)
    ensures
        match r {
            Some(t) => param_token(p@) == Some(t@),
            None => param_token(p@) is None,
        },
{
    let key = before_first_chars(p, '=');
    proof {
        lemma_before_first_len(p@, '=');
    }
    let key_text = string_from_chars(&key);
    if str_eq(key_text.as_str(), "token") && key.len() < p.len() {
        let rest = skip_chars(p, key.len() + 1);
        let value = before_first_chars(&rest, '=');
        Some(string_from_chars(&value))
    } else {
        None
    }
}

/// The token passed in a query string, if any.
pub fn token_from_query(query: &str) -> (r: Option<String>)
    ensures
        match r {
            Some(t) => query_token(query@) == Some(t@),
            None => query_token(query@) is None,
        },
{
    let mut rest = chars_of(query);
    loop
        invariant
            query_token(query@) == query_token(rest@),
        decreases rest.len(),
    {
        let p = before_first_chars(&rest, '&');
        proof {
            lemma_before_first_len(rest@, '&');
        }
        match param_token_chars(&p) {
            Some(t) => {
                return Some(t);
            },
            None => {},
        }
        if p.len() >= rest.len() {
            return None;
        }
        rest = skip_chars(&rest, p.len() + 1);
    }
}

} // verus!
