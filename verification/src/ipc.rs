//! The request that a second instance sends to the running one.

use vstd::prelude::*;
use vstd::slice::slice_to_vec;
use vstd::string::*;

verus! {

/// The request that asks the running instance to toggle the terminal.
pub const TOGGLE_COMMAND: &'static str = "toggle";

/// The bytes written to the running instance's socket: the toggle request
/// followed by a line feed.
pub fn toggle_request() -> (r: Vec<u8>)
    ensures
        r@ == TOGGLE_COMMAND.spec_bytes().push(10u8),
{
    let mut bytes = slice_to_vec(TOGGLE_COMMAND.as_bytes());
    bytes.push(10u8);
    bytes
}

} // verus!
