//! Verified core of a local notification relay.
//!
//! The crate validates notification requests, prepares the bounded
//! notification body, implements the MCP JSON-RPC method dispatch, and
//! models the listener lifecycle.  The HTTP, audio and desktop shells
//! around it live outside the library.

pub mod json;
pub mod listener;
pub mod notify;
pub mod protocol;
pub mod settings;
pub mod text;
pub mod validate;

use vstd::prelude::*;
use vstd::string::StringExecFns;

verus! {

/// The demonstration greeting command.
pub fn greet(name: &str) -> (r: String)
    ensures
        r@ == "Hello, "@ + name@ + "! You've been greeted from Rust!"@,
{
    String::from_str("Hello, ").concat(name).concat("! You've been greeted from Rust!")
}

} // verus!
