//! jear: routing by budget, quality and sensitivity for NEAR AI Cloud and IronClaw.
use vstd::prelude::*;
use vstd::string::*;

pub mod attest;
pub mod budget;
pub mod cli;
pub mod http;
pub mod ironclaw;
pub mod jev;
pub mod jev_wire;
pub mod live;
pub mod near;
pub mod near_wire;
pub mod policy;
pub mod route;
pub mod strmap;
pub mod text;

verus! {

/// Crate version.
pub const VERSION: &'static str = "0.1.0";

/// Returns a friendly greeting with the current version.
pub fn hello() -> (r: String)
    ensures
        r@ == "jear v"@ + VERSION@ + " — foundation ready"@,
{
    let mut s = String::from_str("jear v");
    s.append(VERSION);
    s.append(" — foundation ready");
    s
}

} // verus!
