//! The guarantees the screening pipeline gives, stated on their own.
//!
//! Each proof function states one law of the decision logic over the
//! same spec functions that the executable functions' contracts use,
//! so a caller can read the guarantee without reconstructing it from
//! the individual contracts.

use crate::extract::{spec_head_commit_author, spec_pr_author};
use crate::gateway::{spec_denied, spec_screen, SpecOutcome};
use crate::json::JsonValue;
use vstd::prelude::*;

verus! {

/// A payload offering neither a pull-request author nor a head-commit
/// author is never suppressed, whatever the denylist holds: with
/// `decide`'s contract, such a delivery is always forwarded.
pub proof fn lemma_no_author_forwarded(deny: Seq<Seq<char>>, v: JsonValue)
    requires
        spec_pr_author(v) is None,
        spec_head_commit_author(v) is None,
    ensures
        !spec_denied(deny, v),
{
}

/// A payload whose pull-request author is a denylisted identity is
/// suppressed: with `decide`'s contract, the proxy answers with an
/// empty acknowledgment and issues no outbound call.
pub proof fn lemma_denylisted_pr_author_dropped(deny: Seq<Seq<char>>, v: JsonValue, a: Seq<char>)
    requires
        spec_pr_author(v) == Some(a),
        deny.contains(a),
    ensures
        spec_denied(deny, v),
{
}

/// A payload whose head-commit author is a denylisted identity is
/// suppressed, exactly as a denylisted pull-request author is.
pub proof fn lemma_denylisted_commit_author_dropped(
    deny: Seq<Seq<char>>,
    v: JsonValue,
    a: Seq<char>,
)
    requires
        spec_head_commit_author(v) == Some(a),
        deny.contains(a),
    ensures
        spec_denied(deny, v),
{
}

/// A payload whose extracted actors — whichever strategies find one —
/// all lie outside the denylist is never suppressed: with `screen`'s
/// contract, the delivery is forwarded with its body byte-for-byte
/// unchanged.
pub proof fn lemma_clean_actor_forwarded(deny: Seq<Seq<char>>, v: JsonValue)
    requires
        spec_pr_author(v) matches Some(a) ==> !deny.contains(a),
        spec_head_commit_author(v) matches Some(a) ==> !deny.contains(a),
    ensures
        !spec_denied(deny, v),
{
}

/// Screening carries no state from one delivery to the next: the
/// outcome is a function of the denylist and the body alone, so equal
/// bodies screened against the same denylist come to equal outcomes —
/// two deliveries of one non-denylisted payload mean two independent
/// forwards — and a forwarded body is always the inbound bytes
/// themselves, never a cached or deduplicated substitute.
pub proof fn lemma_screen_stateless(deny: Seq<Seq<char>>, b1: Seq<u8>, b2: Seq<u8>)
    requires
        b1 == b2,
    ensures
        spec_screen(deny, b1) == spec_screen(deny, b2),
        spec_screen(deny, b1) matches SpecOutcome::Forward(f) ==> f == b1,
{
}

} // verus!
