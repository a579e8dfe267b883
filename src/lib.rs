//! Resilient access to a session-authenticated classroom portal: login
//! cascade, endpoint fallback, dual-format post parsing and idempotent
//! photo download, each written as verified decision logic that a host
//! program drives with real network and disk I/O.

pub mod auth;
pub mod cache;
pub mod cli;
pub mod crawl;
pub mod download;
pub mod endpoints;
pub mod error;
pub mod fetch;
pub mod html;
pub mod json;
pub mod parser;
pub mod post;
pub mod text;
pub mod transport;

use vstd::prelude::*;

verus! {

/// The library's version, as its package states it.
pub fn version() -> (r: &'static str)
    ensures
        r@ == "0.1.0"@,
        r@.len() > 0,
{
    let v = "0.1.0";
    proof {
        reveal_strlit("0.1.0");
    }
    v
}

} // verus!
