//! The failure of a history that holds no address yet.

use vstd::prelude::*;

verus! {

/// No address has been recorded.
#[derive(Debug, Clone, Copy, PartialEq, Eq, Structural)]
pub struct IpError {}

impl IpError {
    pub fn new() -> (err: Self)
        ensures
            err == (IpError {}),
    {
        IpError {  }
    }

    /// The sentence that reports this error.
    pub fn message(&self) -> (out: String)
        ensures
            out@ == "IP Address not found."@,
    {
        String::from_str("IP Address not found.")
    }
}

} // verus!
