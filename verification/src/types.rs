//! The address that the services report.

use vstd::prelude::*;
use vstd::std_specs::cmp::PartialEqSpecImpl;

verus! {

/// A public address in the textual form in which a lookup service reported
/// it. Two addresses are the same when their texts are.
#[derive(Debug)]
pub struct IpAddress {
    text: String,
}

impl View for IpAddress {
    type V = Seq<char>;

    closed spec fn view(&self) -> Seq<char> {
        self.text@
    }
}

impl IpAddress {
    pub fn new(text: String) -> (ip: Self)
        ensures
            ip@ == text@,
    {
        IpAddress { text }
    }

    /// The address as text.
    pub fn as_str(&self) -> (text: &str)
        ensures
            text@ == self@,
    {
        self.text.as_str()
    }

    /// The address as a string of its own.
    pub fn to_string(&self) -> (text: String)
        ensures
            text@ == self@,
    {
        self.text.clone()
    }
}

impl Clone for IpAddress {
    fn clone(&self) -> (copy: Self)
        ensures
            copy@ == self@,
    {
        IpAddress { text: self.text.clone() }
    }
}

impl PartialEq for IpAddress {
    fn eq(&self, other: &Self) -> (equal: bool) {
        self.text == other.text
    }
}

impl Eq for IpAddress {

}

impl PartialEqSpecImpl for IpAddress {
    open spec fn obeys_eq_spec() -> bool {
        true
    }

    open spec fn eq_spec(&self, other: &Self) -> bool {
        self@ == other@
    }
}

} // verus!
