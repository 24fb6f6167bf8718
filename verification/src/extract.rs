//! Actor extraction strategies.
//!
//! Each strategy walks one fixed nested path through the payload and
//! yields the actor identity found there, or nothing when any step of
//! the walk is missing or has the wrong shape. Strategies are pure
//! functions of the payload and independent of one another; adding a
//! webhook event shape means adding one more strategy.

use crate::json::{spec_as_str, spec_member, JsonValue};
use vstd::prelude::*;

verus! {

/// The characters of an optional string, for relating an executable
/// `Option<String>` result to its specification.
pub open spec fn opt_chars(r: Option<String>) -> Option<Seq<char>> {
    match r {
        Some(s) => Some(s@),
        None => None,
    }
}

/// Author of a pull request: the `pull_request.user.login` field, when
/// every step of that path is an object and the leaf is a string.
pub open spec fn spec_pr_author(v: JsonValue) -> Option<Seq<char>> {
    match spec_member(v, "pull_request"@) {
        Some(pr) => match spec_member(pr, "user"@) {
            Some(user) => match spec_member(user, "login"@) {
                Some(login) => spec_as_str(login),
                None => None,
            },
            None => None,
        },
        None => None,
    }
}

/// Author of a pushed head commit: the `head_commit.author.name` field,
/// when every step of that path is an object and the leaf is a string.
pub open spec fn spec_head_commit_author(v: JsonValue) -> Option<Seq<char>> {
    match spec_member(v, "head_commit"@) {
        Some(hc) => match spec_member(hc, "author"@) {
            Some(author) => match spec_member(author, "name"@) {
                Some(name) => spec_as_str(name),
                None => None,
            },
            None => None,
        },
        None => None,
    }
}

/// Pull-request strategy: exactly `spec_pr_author`. A missing field or
/// a field of the wrong shape yields `None`, never an error.
pub fn find_pr_author(v: &JsonValue) -> (r: Option<String>)
    ensures
        opt_chars(r) == spec_pr_author(*v),
{
    let pr = match v.member("pull_request") {
        Some(x) => x,
        None => {
            return None;
        },
    };
    let user = match pr.member("user") {
        Some(x) => x,
        None => {
            return None;
        },
    };
    let login = match user.member("login") {
        Some(x) => x,
        None => {
            return None;
        },
    };
    match login.as_str() {
        Some(s) => Some(s.clone()),
        None => None,
    }
}

/// Head-commit strategy: exactly `spec_head_commit_author`.
pub fn find_head_commit_author(v: &JsonValue) -> (r: Option<String>)
    ensures
        opt_chars(r) == spec_head_commit_author(*v),
{
    let hc = match v.member("head_commit") {
        Some(x) => x,
        None => {
            return None;
        },
    };
    let author = match hc.member("author") {
        Some(x) => x,
        None => {
            return None;
        },
    };
    let name = match author.member("name") {
        Some(x) => x,
        None => {
            return None;
        },
    };
    match name.as_str() {
        Some(s) => Some(s.clone()),
        None => None,
    }
}

} // verus!
