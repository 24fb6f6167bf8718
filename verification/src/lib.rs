//! A verified screening core for a webhook forwarding proxy.
//!
//! The library inspects buffered webhook bodies, extracts the acting
//! identity from the JSON payload, matches it against an immutable
//! denylist, and decides whether the delivery is forwarded to the fixed
//! upstream origin or silently acknowledged.

pub mod denylist;
pub mod extract;
pub mod gateway;
pub mod json;
pub mod laws;
pub mod port;

use vstd::prelude::*;
use vstd::string::StringExecFns;

verus! {

/// Scheme and host of the fixed upstream origin that screened
/// deliveries are forwarded to.
pub fn upstream_base() -> (r: String)
    ensures
        r@ == "https://discord.com"@,
{
    String::from_str("https://discord.com")
}

/// Target URI for a forwarded request: the fixed upstream base with the
/// inbound path and query appended verbatim.
pub fn forward_uri(path_and_query: &str) -> (r: String)
    ensures
        r@ == "https://discord.com"@ + path_and_query@,
{
    upstream_base().concat(path_and_query)
}

} // verus!
