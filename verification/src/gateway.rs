//! The forwarding decision and the request-shaping helpers.
//!
//! `decide` is the heart of the interception pipeline: every extraction
//! strategy is run, each result is matched against the denylist, and a
//! single hit suppresses the delivery. The helpers shape what is
//! forwarded: the rewritten target URI and the header list with the
//! host-identifying entry removed.

use crate::denylist::Denylist;
use crate::extract::{
    find_head_commit_author, find_pr_author, spec_head_commit_author, spec_pr_author,
};
use crate::json::{parse_json, parsed_json, JsonValue};
use vstd::prelude::*;
use vstd::string::StringExecFns;

verus! {

/// Whether a payload must be suppressed: some strategy extracts an
/// actor and the denylist holds that exact identity.
pub open spec fn spec_denied(deny: Seq<Seq<char>>, v: JsonValue) -> bool {
    ||| (spec_pr_author(v) matches Some(a) && deny.contains(a))
    ||| (spec_head_commit_author(v) matches Some(a) && deny.contains(a))
}

/// Outcome of screening one parsed payload.
#[derive(Debug, PartialEq, Eq)]
pub enum Decision {
    /// Acknowledge with an empty response; contact no upstream.
    Dropped,
    /// Relay the delivery to the upstream origin.
    Forwarded,
}

/// Screen one parsed payload against the denylist. Every strategy is
/// tried; a delivery is dropped exactly when one of them extracts a
/// denylisted identity. Absence of an actor is never a reason to drop.
pub fn decide(deny: &Denylist, payload: &JsonValue) -> (r: Decision)
    ensures
        (r is Dropped) == spec_denied(deny@, *payload),
        (r is Forwarded) == !spec_denied(deny@, *payload),
{
    if let Some(author) = find_pr_author(payload) {
        if deny.contains(&author) {
            return Decision::Dropped;
        }
    }
    if let Some(author) = find_head_commit_author(payload) {
        if deny.contains(&author) {
            return Decision::Dropped;
        }
    }
    Decision::Forwarded
}

/// Outcome of screening one buffered delivery body.
#[derive(Debug, PartialEq, Eq)]
pub enum Outcome {
    /// The body is not valid JSON: answer with a failure response and
    /// contact no upstream.
    Malformed,
    /// A strategy extracted a denylisted actor: acknowledge with an
    /// empty response and contact no upstream.
    Dropped,
    /// Forward the delivery, reattaching exactly these bytes — the
    /// inbound body, byte for byte — to the outbound request.
    Forward(Vec<u8>),
}

/// `Outcome` seen at the specification level, with the forwarded body
/// as its byte string.
pub enum SpecOutcome {
    Malformed,
    Dropped,
    Forward(Seq<u8>),
}

impl View for Outcome {
    type V = SpecOutcome;

    open spec fn view(&self) -> SpecOutcome {
        match self {
            Outcome::Malformed => SpecOutcome::Malformed,
            Outcome::Dropped => SpecOutcome::Dropped,
            Outcome::Forward(b) => SpecOutcome::Forward(b@),
        }
    }
}

/// What screening a buffered body must come to: parse, extract, match
/// — and on a forward, the inbound bytes themselves.
pub open spec fn spec_screen(deny: Seq<Seq<char>>, body: Seq<u8>) -> SpecOutcome {
    match parsed_json(body) {
        None => SpecOutcome::Malformed,
        Some(v) => if spec_denied(deny, v) {
            SpecOutcome::Dropped
        } else {
            SpecOutcome::Forward(body)
        },
    }
}

/// The per-request pipeline after buffering: parse the body, run every
/// extraction strategy, match against the denylist. A body that is not
/// JSON is reported as malformed — an explicit per-request error, not
/// a crash and not a silent pass-through.
pub fn screen(deny: &Denylist, body: Vec<u8>) -> (r: Outcome)
    ensures
        r@ == spec_screen(deny@, body@),
{
    let parsed = match parse_json(body.as_slice()) {
        Some(v) => v,
        None => {
            return Outcome::Malformed;
        },
    };
    match decide(deny, &parsed) {
        Decision::Dropped => Outcome::Dropped,
        Decision::Forwarded => Outcome::Forward(body),
    }
}

/// Header entries with every host-identifying entry removed. The
/// rewritten URI already carries the upstream host, so an inbound
/// `host` header (lower-cased, as HTTP header names are compared
/// case-insensitively and carried lower-case here) must not survive
/// the rewrite.
pub open spec fn spec_without_host(headers: Seq<(String, String)>) -> Seq<(String, String)> {
    headers.filter(|h: (String, String)| h.0@ != "host"@)
}

/// Remove the `host` header, keeping every other entry in order.
pub fn strip_host_headers(headers: Vec<(String, String)>) -> (r: Vec<(String, String)>)
    ensures
        r@ == spec_without_host(headers@),
{
    let host: String = String::from_str("host");
    let mut out: Vec<(String, String)> = Vec::new();
    let n = headers.len();
    let mut i: usize = 0;
    proof {
        assert(spec_without_host(headers@.take(0)) =~= Seq::<(String, String)>::empty());
    }
    while i < n
        invariant
            n == headers@.len(),
            i <= n,
            host@ == "host"@,
            out@ == spec_without_host(headers@.take(i as int)),
        decreases n - i,
    {
        proof {
            assert(headers@.take(i as int + 1).drop_last() =~= headers@.take(i as int));
            assert(headers@.take(i as int + 1).last() == headers@[i as int]);
            reveal_with_fuel(Seq::filter, 2);
        }
        if headers[i].0 == host {
            proof {
                assert(out@ =~= spec_without_host(headers@.take(i as int + 1)));
            }
        } else {
            let name = headers[i].0.clone();
            let value = headers[i].1.clone();
            out.push((name, value));
            proof {
                assert((name, value) == headers@[i as int]);
                assert(out@ =~= spec_without_host(headers@.take(i as int + 1)));
            }
        }
        i = i + 1;
    }
    proof {
        assert(headers@.take(n as int) =~= headers@);
    }
    out
}

} // verus!
